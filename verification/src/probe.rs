use vstd::prelude::*;

use crate::metadata::{visual_views, MetaDataVisual, VisualView};
use crate::screen::{is_restricted_tag_at, restricted_tag_at};
use crate::tags::{tag_views, TagEntry, TagEntryView, TagValue};

verus! {

/// One revision of a container's metadata, as symphonia holds it: a list of
/// tags and a list of embedded images. Its inside is not visible here.
#[verifier::external_type_specification]
#[verifier::external_body]
pub struct ExMetadataRevision(symphonia::core::meta::MetadataRevision);

/// What the probe's search stops at: the marker of a tag block or that of a
/// container format, and the place in the stream at which the marker starts.
#[derive(Clone, Copy, Debug, PartialEq, Eq, Structural)]
pub enum Marker {
    /// The marker of a tag block.
    Tags { at: usize },
    /// The marker of a container format.
    Format { at: usize },
}

/// A tag block as it was read: its tags, its images, and the place in the
/// stream behind it.
pub struct TagBlock {
    pub tags: Seq<TagEntryView>,
    pub visuals: Seq<VisualView>,
    pub end: nat,
}

/// What probing a byte stream came to.
#[derive(Debug, PartialEq, Eq)]
pub enum Probed {
    /// The stream is not accepted: no registered format takes it, or a tag
    /// block ahead of the container cannot be read.
    Rejected,
    /// A format accepts the stream, and no tag block precedes the container.
    NoBlock,
    /// A format accepts the stream; these are the tags and the images of the
    /// first tag block, each in container order.
    Block { tags: Vec<TagEntry>, visuals: Vec<MetaDataVisual> },
}

/// The mathematical value of a `Probed`.
pub enum ProbeOutcome {
    /// The stream is not accepted.
    Rejected,
    /// A format accepts the stream, and no tag block precedes the container.
    NoBlock,
    /// A format accepts the stream; these are the tags and the images of the
    /// first tag block, each in container order.
    Block { tags: Seq<TagEntryView>, visuals: Seq<VisualView> },
}

impl View for Probed {
    type V = ProbeOutcome;

    open spec fn view(&self) -> ProbeOutcome {
        match self {
            Probed::Rejected => ProbeOutcome::Rejected,
            Probed::NoBlock => ProbeOutcome::NoBlock,
            Probed::Block { tags, visuals } => ProbeOutcome::Block {
                tags: tag_views(tags@),
                visuals: visual_views(visuals@),
            },
        }
    }
}

/// What the search of symphonia's default probe stops at when it starts at
/// the place `from` of the stream `bytes`, or `None` where it finds no marker.
pub uninterp spec fn marker_from(bytes: Seq<u8>, from: nat) -> Option<Marker>;

/// What the tag reader that the probe hands out at the place `at` reads
/// there, or `None` where it cannot read a tag block.
pub uninterp spec fn tag_block_at(bytes: Seq<u8>, at: nat) -> Option<TagBlock>;

/// Whether the format reader that the probe hands out at the place `at`
/// takes the stream from there.
pub uninterp spec fn format_opens_at(bytes: Seq<u8>, at: nat) -> bool;

/// The tags that a metadata revision holds, in the order `tags()` gives them.
pub uninterp spec fn revision_tags(revision: symphonia::core::meta::MetadataRevision) -> Seq<
    TagEntryView,
>;

/// The images that a metadata revision holds, in the order `visuals()` gives them.
pub uninterp spec fn revision_visuals(revision: symphonia::core::meta::MetadataRevision) -> Seq<
    VisualView,
>;

/// The tag block that a result of `read_tag_block` stands for.
pub open spec fn block_of(read: Option<(symphonia::core::meta::MetadataRevision, usize)>) -> Option<
    TagBlock,
> {
    match read {
        Some((revision, end)) => Some(
            TagBlock {
                tags: revision_tags(revision),
                visuals: revision_visuals(revision),
                end: end as nat,
            },
        ),
        None => None,
    }
}

/// Searches the stream from the place `from` on for the next marker, with
/// `Probe::next` of symphonia's default probe on a `MediaSourceStream` over
/// the bytes, and says what kind of marker it stopped at and where the
/// stream then stands (`ReadBytes::pos`).
///
/// Trusted: what is found depends on the bytes and the place alone, so it is
/// `marker_from` of them. An error of the search stands for no marker.
#[verifier::external_body]
pub(crate) fn find_marker(bytes: &Vec<u8>, from: usize) -> (found: Option<Marker>)
    ensures
        found == marker_from(bytes@, from as nat),
{
    let source = Box::new(std::io::Cursor::new(bytes.clone()));
    let mut stream = symphonia::core::io::MediaSourceStream::new(source, Default::default());
    std::io::Seek::seek(&mut stream, std::io::SeekFrom::Start(from as u64)).ok()?;
    match symphonia::default::get_probe().next(&mut stream) {
        Ok(symphonia::core::probe::Instantiate::Metadata(_)) => Some(
            Marker::Tags { at: symphonia::core::io::ReadBytes::pos(&stream) as usize },
        ),
        Ok(symphonia::core::probe::Instantiate::Format(_)) => Some(
            Marker::Format { at: symphonia::core::io::ReadBytes::pos(&stream) as usize },
        ),
        Err(_) => None,
    }
}

/// Reads the tag block whose marker stands at `at`, with `read_all` of the
/// tag reader that `Probe::next` hands out there, and says where the stream
/// stands behind the block.
///
/// Trusted: what is read depends on the bytes and the place alone, so it is
/// `tag_block_at` of them. An error of the reader stands for no block.
///
/// Trusted as well: the reader returns. `requires` leaves out the one header
/// on which the tag reader of symphonia 0.5.5 does not: on a version 2.4
/// `ID3` tag whose restrictions byte has bit `0x40` set it ends in
/// `unreachable!`. The memory that a tag frame asks for is taken to be there.
#[verifier::external_body]
pub(crate) fn read_tag_block(bytes: &Vec<u8>, at: usize) -> (read: Option<
    (symphonia::core::meta::MetadataRevision, usize),
>)
    requires
        marker_from(bytes@, at as nat) == Some(Marker::Tags { at }),
        !restricted_tag_at(bytes@, at as int),
    ensures
        block_of(read) == tag_block_at(bytes@, at as nat),
{
    let source = Box::new(std::io::Cursor::new(bytes.clone()));
    let mut stream = symphonia::core::io::MediaSourceStream::new(source, Default::default());
    std::io::Seek::seek(&mut stream, std::io::SeekFrom::Start(at as u64)).ok()?;
    match symphonia::default::get_probe().next(&mut stream) {
        Ok(symphonia::core::probe::Instantiate::Metadata(reader)) => {
            let revision = reader(&Default::default()).read_all(&mut stream).ok()?;
            Some((revision, symphonia::core::io::ReadBytes::pos(&stream) as usize))
        },
        Ok(symphonia::core::probe::Instantiate::Format(_)) => None,
        Err(_) => None,
    }
}

/// Hands the stream from the place `at` on to the format reader that
/// `Probe::next` hands out there, and says whether the reader takes it.
///
/// Trusted: whether it does depends on the bytes and the place alone, so it
/// is `format_opens_at` of them. Where the search hands out no format
/// reader, none takes the stream.
#[verifier::external_body]
pub(crate) fn opens_format(bytes: &Vec<u8>, at: usize) -> (opens: bool)
    ensures
        opens == format_opens_at(bytes@, at as nat),
{
    let source = Box::new(std::io::Cursor::new(bytes.clone()));
    let mut stream = symphonia::core::io::MediaSourceStream::new(source, Default::default());
    if std::io::Seek::seek(&mut stream, std::io::SeekFrom::Start(at as u64)).is_err() {
        return false;
    }
    match symphonia::default::get_probe().next(&mut stream) {
        Ok(symphonia::core::probe::Instantiate::Format(open)) => open(
            stream,
            &Default::default(),
        ).is_ok(),
        Ok(symphonia::core::probe::Instantiate::Metadata(_)) => false,
        Err(_) => false,
    }
}

/// Hands out the tags of a revision (`MetadataRevision::tags`), each as a
/// `TagEntry` with the same key and the same value; of a floating-point
/// value only the kind is kept.
///
/// Trusted: the entries are `revision_tags` of the revision, in order.
#[verifier::external_body]
pub(crate) fn tag_entries(revision: &symphonia::core::meta::MetadataRevision) -> (entries: Vec<
    TagEntry,
>)
    ensures
        tag_views(entries@) == revision_tags(*revision),
{
    revision.tags().iter().map(|tag| TagEntry {
        key: tag.key.clone(),
        value: match &tag.value {
            symphonia::core::meta::Value::Binary(bytes) => TagValue::Binary(bytes.to_vec()),
            symphonia::core::meta::Value::Boolean(flag) => TagValue::Boolean(*flag),
            symphonia::core::meta::Value::Flag => TagValue::Flag,
            symphonia::core::meta::Value::Float(_) => TagValue::Float,
            symphonia::core::meta::Value::SignedInt(number) => TagValue::SignedInt(*number),
            symphonia::core::meta::Value::String(text) => TagValue::Text(text.clone()),
            symphonia::core::meta::Value::UnsignedInt(number) => TagValue::UnsignedInt(*number),
        },
    }).collect()
}

/// Hands out the images of a revision (`MetadataRevision::visuals`), each
/// with its media type and its bytes.
///
/// Trusted: the images are `revision_visuals` of the revision, in order.
#[verifier::external_body]
pub(crate) fn embedded_visuals(revision: &symphonia::core::meta::MetadataRevision) -> (visuals:
    Vec<MetaDataVisual>)
    ensures
        visual_views(visuals@) == revision_visuals(*revision),
{
    revision.visuals().iter().map(|visual| MetaDataVisual {
        media_type: visual.media_type.clone(),
        data: visual.data.to_vec(),
    }).collect()
}

/// What was found so far, with a tag block taken in: the first block read
/// is kept, a later one changes nothing.
pub open spec fn with_block(found: ProbeOutcome, block: TagBlock) -> ProbeOutcome {
    match found {
        ProbeOutcome::NoBlock => ProbeOutcome::Block { tags: block.tags, visuals: block.visuals },
        _ => found,
    }
}

/// What probing comes to from the place `place` on, given what was `found`
/// before it.
///
/// The search goes from marker to marker. At the marker of a format the
/// walk ends: the stream is accepted where the format reader takes it. At
/// the marker of a tag block the block is read and the search goes on behind
/// it; the stream is not accepted where the block cannot be read, or where
/// the tag reader would be handed a header that it cannot take. A step that
/// does not lead on in the stream ends the walk; neither the search nor the
/// tag reader makes one.
pub open spec fn probe_from(bytes: Seq<u8>, place: nat, found: ProbeOutcome) -> ProbeOutcome
    decreases bytes.len() - place,
{
    match marker_from(bytes, place) {
        None => ProbeOutcome::Rejected,
        Some(Marker::Format { at }) => if format_opens_at(bytes, at as nat) {
            found
        } else {
            ProbeOutcome::Rejected
        },
        Some(Marker::Tags { at }) => if at == place {
            if restricted_tag_at(bytes, place as int) {
                ProbeOutcome::Rejected
            } else {
                match tag_block_at(bytes, place) {
                    Some(block) => if place < block.end <= bytes.len() {
                        probe_from(bytes, block.end, with_block(found, block))
                    } else {
                        ProbeOutcome::Rejected
                    },
                    None => ProbeOutcome::Rejected,
                }
            }
        } else if place < at <= bytes.len() {
            probe_from(bytes, at as nat, found)
        } else {
            ProbeOutcome::Rejected
        },
    }
}

/// What probing the stream `bytes` comes to.
pub open spec fn probe_outcome(bytes: Seq<u8>) -> ProbeOutcome {
    probe_from(bytes, 0, ProbeOutcome::NoBlock)
}

/// Probes a byte stream for its container format and hands out the tags and
/// the images of its first tag block.
///
/// The stream is walked as symphonia's probe walks it, marker by marker, but
/// step by step: before the tag reader is handed a place, the header there
/// is held against `restricted_tag_at`. Each step opens the stream anew at
/// its place, over a copy of the bytes.
pub fn probe_stream(bytes: &Vec<u8>) -> (probed: Probed)
    ensures
        probed@ == probe_outcome(bytes@),
{
    let mut place: usize = 0;
    let mut found = Probed::NoBlock;
    loop
        invariant
            place <= bytes.len(),
            probe_outcome(bytes@) == probe_from(bytes@, place as nat, found@),
        decreases bytes.len() - place,
    {
        match find_marker(bytes, place) {
            None => {
                return Probed::Rejected;
            },
            Some(Marker::Format { at }) => {
                if opens_format(bytes, at) {
                    return found;
                }
                return Probed::Rejected;
            },
            Some(Marker::Tags { at }) => {
                if at != place {
                    if at < place || at > bytes.len() {
                        return Probed::Rejected;
                    }
                    place = at;
                } else if is_restricted_tag_at(bytes, place) {
                    return Probed::Rejected;
                } else {
                    match read_tag_block(bytes, place) {
                        None => {
                            return Probed::Rejected;
                        },
                        Some((revision, end)) => {
                            if end <= place || end > bytes.len() {
                                return Probed::Rejected;
                            }
                            if let Probed::NoBlock = found {
                                let tags = tag_entries(&revision);
                                let visuals = embedded_visuals(&revision);
                                found = Probed::Block { tags, visuals };
                            }
                            place = end;
                        },
                    }
                }
            },
        }
    }
}

} // verus!
