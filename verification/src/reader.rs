use vstd::prelude::*;

use crate::error::PlayerError;
use crate::metadata::{lemma_unrecognized_block_is_bare, MetaData, MetaDataView};
use crate::probe::{
    format_opens_at, marker_from, probe_from, probe_outcome, probe_stream, tag_block_at, Marker,
    ProbeOutcome, Probed,
};
use crate::screen::restricted_tag_at;

verus! {

/// A file of the listed directory as it was found: its path, and its bytes
/// where it could be read.
#[derive(Debug, PartialEq, Eq)]
pub struct MediaFile {
    /// The file's location.
    pub path: String,
    /// The file's bytes, or `None` where the file could not be opened or read.
    pub contents: Option<Vec<u8>>,
}

/// The view of what was read of a file.
pub open spec fn contents_view(contents: Option<Vec<u8>>) -> Option<Seq<u8>> {
    match contents {
        Some(bytes) => Some(bytes@),
        None => None,
    }
}

/// The view of what reading a file's metadata came to.
pub open spec fn reading_view(reading: Result<MetaData, PlayerError>) -> Result<
    MetaDataView,
    PlayerError,
> {
    match reading {
        Ok(record) => Ok(record@),
        Err(error) => Err(error),
    }
}

/// The record that a probe outcome gives for the file at `path`.
pub open spec fn record_of(path: Seq<char>, outcome: ProbeOutcome) -> Result<
    MetaDataView,
    PlayerError,
> {
    match outcome {
        ProbeOutcome::Rejected => Err(PlayerError::UnsupportedFormat),
        ProbeOutcome::NoBlock => Ok(MetaDataView::bare(path)),
        ProbeOutcome::Block { tags, visuals } => Ok(MetaDataView::from_block(path, tags, visuals)),
    }
}

/// What reading the metadata of the file at `path` comes to, given what was
/// read of the file.
///
/// A file without a name, or one that could not be read, cannot be opened.
/// A stream that is not accepted is unsupported; an accepted one gives a
/// record, bare where it has no metadata block.
pub open spec fn read_outcome(path: Seq<char>, contents: Option<Seq<u8>>) -> Result<
    MetaDataView,
    PlayerError,
> {
    if path.len() == 0 {
        Err(PlayerError::MediaOpen)
    } else {
        match contents {
            None => Err(PlayerError::MediaOpen),
            Some(bytes) => record_of(path, probe_outcome(bytes)),
        }
    }
}

/// Makes the record of the file at `path` from what probing its bytes came to.
pub fn record_of_probe(path: &String, probed: &Probed) -> (reading: Result<MetaData, PlayerError>)
    requires
        path@.len() > 0,
    ensures
        reading_view(reading) == record_of(path@, probed@),
{
    match probed {
        Probed::Rejected => Err(PlayerError::UnsupportedFormat),
        Probed::NoBlock => Ok(MetaData::new(path)),
        Probed::Block { tags, visuals } => Ok(MetaData::from_block(path, tags, visuals)),
    }
}

/// Reads the display metadata of the file at `path` from its bytes.
///
/// `contents` is what opening and reading the file gave: `None` where that
/// failed. Nothing is cached: every call probes the bytes anew.
pub fn read_mp3_metadata(path: &String, contents: Option<Vec<u8>>) -> (reading: Result<
    MetaData,
    PlayerError,
>)
    ensures
        reading_view(reading) == read_outcome(path@, contents_view(contents)),
{
    if path.as_str().is_empty() {
        return Err(PlayerError::MediaOpen);
    }
    let bytes = match contents {
        Some(bytes) => bytes,
        None => {
            return Err(PlayerError::MediaOpen);
        },
    };
    let probed = probe_stream(&bytes);
    record_of_probe(path, &probed)
}

/// Reads the metadata of every file of a listing, in the listing's order.
///
/// A file that cannot be read or probed does not end the listing: its place
/// holds the error, and the files behind it are read all the same.
pub fn find_files(files: Vec<MediaFile>) -> (listing: Vec<Result<MetaData, PlayerError>>)
    ensures
        listing.len() == files.len(),
        forall|i: int|
            0 <= i < files.len() ==> reading_view(#[trigger] listing[i]) == read_outcome(
                files[i].path@,
                contents_view(files[i].contents),
            ),
{
    let mut listing: Vec<Result<MetaData, PlayerError>> = Vec::new();
    for file in it: files
        invariant
            listing.len() == it.index(),
            it.seq() == files@,
            forall|i: int|
                0 <= i < listing.len() ==> reading_view(#[trigger] listing[i]) == read_outcome(
                    files[i].path@,
                    contents_view(files[i].contents),
                ),
    {
        let MediaFile { path, contents } = file;
        listing.push(read_mp3_metadata(&path, contents));
    }
    listing
}

/// A file whose stream is accepted and holds no recognized frame and no
/// image, be it for want of a metadata block or of such entries in it, reads
/// as the record with only the path set.
pub proof fn lemma_untagged_file_reads_bare(path: Seq<char>, bytes: Seq<u8>)
    requires
        path.len() > 0,
        match probe_outcome(bytes) {
            ProbeOutcome::Rejected => false,
            ProbeOutcome::NoBlock => true,
            ProbeOutcome::Block { tags, visuals } => {
                &&& forall|i: int| 0 <= i < tags.len() ==> !(#[trigger] tags[i]).is_recognized()
                &&& visuals.len() == 0
            },
        },
    ensures
        read_outcome(path, Some(bytes)) == Ok::<MetaDataView, PlayerError>(MetaDataView::bare(path)),
{
    if let ProbeOutcome::Block { tags, visuals } = probe_outcome(bytes) {
        lemma_unrecognized_block_is_bare(path, tags, visuals);
    }
}

/// A file whose first metadata block holds images reads with the last of
/// them as its cover art.
pub proof fn lemma_read_keeps_last_image(path: Seq<char>, bytes: Seq<u8>)
    requires
        path.len() > 0,
        probe_outcome(bytes) matches ProbeOutcome::Block { visuals, .. } && visuals.len() > 0,
    ensures
        read_outcome(path, Some(bytes)) matches Ok(record) && record.visual == Some(
            probe_outcome(bytes)->visuals.last(),
        ),
{
}

/// A file that could not be opened or read fails with `MediaOpen`, whatever
/// its path; and so does a file without a name, whatever was read.
pub proof fn lemma_unread_file_fails(path: Seq<char>, contents: Option<Seq<u8>>)
    ensures
        read_outcome(path, None) == Err::<MetaDataView, PlayerError>(PlayerError::MediaOpen),
        path.len() == 0 ==> read_outcome(path, contents) == Err::<MetaDataView, PlayerError>(
            PlayerError::MediaOpen,
        ),
{
}

/// A file fails as unsupported exactly where it has a name and was read and
/// its stream is not accepted.
pub proof fn lemma_unsupported_exactly_when_rejected(path: Seq<char>, contents: Option<Seq<u8>>)
    ensures
        read_outcome(path, contents) == Err::<MetaDataView, PlayerError>(
            PlayerError::UnsupportedFormat,
        ) <==> path.len() > 0 && contents is Some && probe_outcome(contents->Some_0) is Rejected,
{
}

/// Every file that has a name, was read, and whose stream is accepted gives
/// a record.
pub proof fn lemma_accepted_stream_gives_record(path: Seq<char>, bytes: Seq<u8>)
    requires
        path.len() > 0,
        !(probe_outcome(bytes) is Rejected),
    ensures
        read_outcome(path, Some(bytes)) is Ok,
{
}

/// A stream in which the search first stops at the marker of a format whose
/// reader takes it reads as the record with only the path set, whatever
/// bytes stand elsewhere in it.
pub proof fn lemma_stream_of_audio_reads_bare(path: Seq<char>, bytes: Seq<u8>, at: usize)
    requires
        path.len() > 0,
        marker_from(bytes, 0) == Some(Marker::Format { at }),
        format_opens_at(bytes, at as nat),
    ensures
        probe_outcome(bytes) == ProbeOutcome::NoBlock,
        read_outcome(path, Some(bytes)) == Ok::<MetaDataView, PlayerError>(MetaDataView::bare(path)),
{
}

/// A stream that begins with a tag block which the tag reader can take, and
/// goes on behind it with a format whose reader takes it, reads as the
/// record of that block, whatever the block holds.
pub proof fn lemma_stream_of_block_and_audio_reads_block(
    path: Seq<char>,
    bytes: Seq<u8>,
    at: usize,
)
    requires
        path.len() > 0,
        marker_from(bytes, 0) == Some(Marker::Tags { at: 0 }),
        !restricted_tag_at(bytes, 0),
        tag_block_at(bytes, 0) matches Some(block) && 0 < block.end <= bytes.len() && marker_from(
            bytes,
            block.end,
        ) == Some(Marker::Format { at }) && format_opens_at(bytes, at as nat),
    ensures
        probe_outcome(bytes) == (ProbeOutcome::Block {
            tags: tag_block_at(bytes, 0)->Some_0.tags,
            visuals: tag_block_at(bytes, 0)->Some_0.visuals,
        }),
        read_outcome(path, Some(bytes)) == Ok::<MetaDataView, PlayerError>(
            MetaDataView::from_block(
                path,
                tag_block_at(bytes, 0)->Some_0.tags,
                tag_block_at(bytes, 0)->Some_0.visuals,
            ),
        ),
{
    let block = tag_block_at(bytes, 0)->Some_0;
    assert(probe_outcome(bytes) == probe_from(
        bytes,
        block.end,
        ProbeOutcome::Block { tags: block.tags, visuals: block.visuals },
    ));
}

/// A record is only ever read for a path that is not empty, and it carries
/// that path.
pub proof fn lemma_read_record_has_its_path(path: Seq<char>, contents: Option<Seq<u8>>)
    ensures
        read_outcome(path, contents) matches Ok(record) ==> record.path == path && path.len() > 0,
{
}

} // verus!
