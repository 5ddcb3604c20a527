use vstd::prelude::*;

use crate::metadata::{MetaData, MetaDataView};

verus! {

/// The character of a decimal digit.
pub open spec fn digit(d: nat) -> char {
    if d == 0 {
        '0'
    } else if d == 1 {
        '1'
    } else if d == 2 {
        '2'
    } else if d == 3 {
        '3'
    } else if d == 4 {
        '4'
    } else if d == 5 {
        '5'
    } else if d == 6 {
        '6'
    } else if d == 7 {
        '7'
    } else if d == 8 {
        '8'
    } else {
        '9'
    }
}

/// A number in decimal digits, without leading zeros.
pub open spec fn decimal(n: nat) -> Seq<char>
    decreases n,
{
    if n < 10 {
        seq![digit(n)]
    } else {
        decimal(n / 10).push(digit(n % 10))
    }
}

/// The bytes in decimal, with a comma between one and the next.
pub open spec fn joined(bytes: Seq<u8>) -> Seq<char>
    decreases bytes.len(),
{
    if bytes.len() == 0 {
        Seq::empty()
    } else if bytes.len() == 1 {
        decimal(bytes[0] as nat)
    } else {
        joined(bytes.drop_last()).push(',') + decimal(bytes.last() as nat)
    }
}

/// How many bytes of an image are shown at either end: five, or all of
/// them where the image has fewer.
pub open spec fn sample_len(len: nat) -> nat {
    if len < 5 {
        len
    } else {
        5
    }
}

/// The first bytes of an image that are shown.
pub open spec fn leading_sample(data: Seq<u8>) -> Seq<u8> {
    data.subrange(0, sample_len(data.len()) as int)
}

/// The last bytes of an image that are shown.
pub open spec fn trailing_sample(data: Seq<u8>) -> Seq<u8> {
    data.subrange(data.len() - sample_len(data.len()), data.len() as int)
}

/// An optional text, or the empty text in its place.
pub open spec fn or_empty(text: Option<Seq<char>>) -> Seq<char> {
    match text {
        Some(t) => t,
        None => Seq::empty(),
    }
}

/// The media type of the cover art, or the empty text where there is none.
pub open spec fn cover_media_type(record: MetaDataView) -> Seq<char> {
    match record.visual {
        Some(v) => v.media_type,
        None => Seq::empty(),
    }
}

/// The bytes of the cover art, or none where there is no cover art.
pub open spec fn cover_data(record: MetaDataView) -> Seq<u8> {
    match record.visual {
        Some(v) => v.data,
        None => Seq::empty(),
    }
}

/// The line that shows a record: every field by name, an absent one as the
/// empty text, and of the cover art its media type and a sample of its bytes
/// from either end.
pub open spec fn display_text(record: MetaDataView) -> Seq<char> {
    "path:"@ + record.path + ", title:"@ + or_empty(record.title) + ", artist:"@ + or_empty(
        record.artist,
    ) + ", group:"@ + or_empty(record.group) + ", album:"@ + or_empty(record.album)
        + ", track_number:"@ + or_empty(record.track_number) + ", visual:(media_type: "@
        + cover_media_type(record) + ", data:"@ + joined(leading_sample(cover_data(record)))
        + ",..."@ + joined(trailing_sample(cover_data(record))) + "), "@
}

/// The text of one decimal digit.
fn digit_text(d: u8) -> (text: &'static str)
    requires
        d < 10,
    ensures
        text@ == seq![digit(d as nat)],
{
    proof {
        reveal_strlit("0");
        reveal_strlit("1");
        reveal_strlit("2");
        reveal_strlit("3");
        reveal_strlit("4");
        reveal_strlit("5");
        reveal_strlit("6");
        reveal_strlit("7");
        reveal_strlit("8");
        reveal_strlit("9");
    }
    let text = if d == 0 {
        "0"
    } else if d == 1 {
        "1"
    } else if d == 2 {
        "2"
    } else if d == 3 {
        "3"
    } else if d == 4 {
        "4"
    } else if d == 5 {
        "5"
    } else if d == 6 {
        "6"
    } else if d == 7 {
        "7"
    } else if d == 8 {
        "8"
    } else {
        "9"
    };
    text
}

/// Appends a byte in decimal.
pub fn push_decimal(out: &mut String, byte: u8)
    ensures
        final(out)@ == old(out)@ + decimal(byte as nat),
{
    if byte >= 100 {
        out.append(digit_text(byte / 100));
        out.append(digit_text((byte / 10) % 10));
        out.append(digit_text(byte % 10));
        assert(decimal((byte / 10) as nat) == decimal((byte / 100) as nat).push(
            digit(((byte / 10) % 10) as nat),
        ));
    } else if byte >= 10 {
        out.append(digit_text(byte / 10));
        out.append(digit_text(byte % 10));
        assert(decimal(byte as nat) == decimal((byte / 10) as nat).push(digit((byte % 10) as nat)));
    } else {
        out.append(digit_text(byte));
    }
}

/// Appends the bytes from `from` up to `to` in decimal, with commas between them.
pub fn push_joined(out: &mut String, bytes: &Vec<u8>, from: usize, to: usize)
    requires
        from <= to <= bytes.len(),
    ensures
        final(out)@ == old(out)@ + joined(bytes@.subrange(from as int, to as int)),
{
    let ghost before = out@;
    let mut i: usize = from;
    while i < to
        invariant
            from <= i <= to <= bytes.len(),
            out@ == before + joined(bytes@.subrange(from as int, i as int)),
        decreases to - i,
    {
        assert(bytes@.subrange(from as int, i + 1).drop_last() =~= bytes@.subrange(
            from as int,
            i as int,
        ));
        if i > from {
            out.append(",");
            proof {
                reveal_strlit(",");
            }
        }
        push_decimal(out, bytes[i]);
        i += 1;
    }
}

impl MetaData {
    /// The record as one line of text.
    ///
    /// Of the cover art the first five and the last five bytes are shown; of
    /// an image with fewer than five bytes, all of them at either end; of a
    /// record without cover art, none.
    pub fn to_display_string(&self) -> (text: String)
        ensures
            text@ == display_text(self@),
    {
        let mut text = String::from_str("path:");
        text.append(self.path().as_str());
        text.append(", title:");
        push_text(&mut text, self.title());
        text.append(", artist:");
        push_text(&mut text, self.artist());
        text.append(", group:");
        push_text(&mut text, self.group());
        text.append(", album:");
        push_text(&mut text, self.album());
        text.append(", track_number:");
        push_text(&mut text, self.track_number());
        text.append(", visual:(media_type: ");
        match self.visual() {
            Some(visual) => {
                let len: usize = visual.data.len();
                let shown: usize = if len < 5 {
                    len
                } else {
                    5
                };
                text.append(visual.media_type.as_str());
                text.append(", data:");
                push_joined(&mut text, &visual.data, 0, shown);
                text.append(",...");
                push_joined(&mut text, &visual.data, len - shown, len);
            },
            None => {
                text.append(", data:");
                text.append(",...");
            },
        }
        text.append("), ");
        text
    }
}

/// Appends an optional text, or nothing where it is absent.
fn push_text(out: &mut String, text: &Option<String>)
    ensures
        final(out)@ == old(out)@ + or_empty(crate::metadata::text_view(*text)),
{
    match text {
        Some(t) => {
            out.append(t.as_str());
        },
        None => {},
    }
}

/// The number that a decimal digit stands for.
pub open spec fn digit_value(c: char) -> nat {
    if c == '1' {
        1
    } else if c == '2' {
        2
    } else if c == '3' {
        3
    } else if c == '4' {
        4
    } else if c == '5' {
        5
    } else if c == '6' {
        6
    } else if c == '7' {
        7
    } else if c == '8' {
        8
    } else if c == '9' {
        9
    } else {
        0
    }
}

/// The number that a sequence of decimal digits stands for.
pub open spec fn number_of(digits: Seq<char>) -> nat
    decreases digits.len(),
{
    if digits.len() == 0 {
        0
    } else {
        number_of(digits.drop_last()) * 10 + digit_value(digits.last())
    }
}

/// The decimal digits of a number stand for that number, and they begin
/// with a zero only where the number is zero.
pub proof fn lemma_decimal_reads_back(n: nat)
    ensures
        number_of(decimal(n)) == n,
        decimal(n).len() >= 1,
        decimal(n)[0] == '0' <==> n == 0,
    decreases n,
{
    if n < 10 {
        assert(number_of(decimal(n).drop_last()) == 0);
    } else {
        lemma_decimal_reads_back(n / 10);
        assert(decimal(n).drop_last() =~= decimal(n / 10));
    }
}

/// The samples of an image never reach beyond it: an image with fewer than
/// five bytes is shown whole at either end, a longer one by its first five
/// and its last five bytes.
pub proof fn lemma_samples_stay_within_image(data: Seq<u8>)
    ensures
        leading_sample(data).len() == sample_len(data.len()),
        trailing_sample(data).len() == sample_len(data.len()),
        sample_len(data.len()) <= data.len(),
        sample_len(data.len()) <= 5,
        data.len() < 5 ==> leading_sample(data) == data && trailing_sample(data) == data,
        data.len() >= 5 ==> forall|i: int|
            0 <= i < 5 ==> leading_sample(data)[i] == data[i] && trailing_sample(data)[i]
                == data[data.len() - 5 + i],
{
}

} // verus!
