//! Ways to consume the body of a response, which arrives as a single-pass
//! sequence of groups of bytes. Each of them decides, pull by pull, what to
//! do with what arrived, and none asks for another pull once it has seen the
//! end of the body or a failure.

use crate::buffer::buffered;
use crate::errors::{Error, IoKind};
use bytes::BytesMut;
use vstd::prelude::*;
use vstd::utf8::{decode_utf8, valid_utf8};

verus! {

/// What one pull on a body brought.
#[derive(Debug)]
pub enum Pulled {
    /// The next group of bytes.
    Chunk(Vec<u8>),
    /// The transport failed.
    Failed(Error),
    /// The body is over.
    End,
}

/// What became of one pull that was fed to a `Materialize`.
#[derive(Debug)]
pub enum Collected {
    /// The bytes were taken in. Pull again.
    More,
    /// The body is over, and these are all its bytes.
    Complete(Vec<u8>),
    /// The transport failed, and what had been taken in is dropped.
    Failed(Error),
    /// The body had been over before, and the pull is ignored.
    Closed,
}

/// A `Materialize` as a mathematical value.
pub struct Gathered {
    /// All bytes taken in so far.
    pub collected: Seq<u8>,
    /// Whether the end of the body or a failure has been seen.
    pub finished: bool,
}

impl Gathered {
    /// The value after one more group of bytes was taken in. Once finished,
    /// nothing is taken in any more.
    pub open spec fn take(self, bytes: Seq<u8>) -> Gathered {
        if self.finished {
            self
        } else {
            Gathered { collected: self.collected + bytes, finished: false }
        }
    }

    /// The value after several groups of bytes were taken in, one by one.
    pub open spec fn take_all(self, chunks: Seq<Seq<u8>>) -> Gathered
        decreases chunks.len(),
    {
        if chunks.len() == 0 {
            self
        } else {
            self.take(chunks[0]).take_all(chunks.skip(1))
        }
    }
}

/// Groups of bytes joined into the byte sequence that they cut up.
pub open spec fn joined(chunks: Seq<Seq<u8>>) -> Seq<u8>
    decreases chunks.len(),
{
    if chunks.len() == 0 {
        Seq::empty()
    } else {
        chunks[0] + joined(chunks.skip(1))
    }
}

/// Gathering loses nothing and reorders nothing: after any groups of bytes
/// were taken in one by one, what is gathered is what was there before,
/// followed by all of their bytes in order of arrival.
pub proof fn gathering_joins_chunks(start: Gathered, chunks: Seq<Seq<u8>>)
    requires
        !start.finished,
    ensures
        start.take_all(chunks) == (Gathered {
            collected: start.collected + joined(chunks),
            finished: false,
        }),
    decreases chunks.len(),
{
    if chunks.len() == 0 {
        assert(start.collected + joined(chunks) =~= start.collected);
    } else {
        gathering_joins_chunks(start.take(chunks[0]), chunks.skip(1));
        assert((start.collected + chunks[0]) + joined(chunks.skip(1)) =~= start.collected
            + joined(chunks));
    }
}

/// Gathers a whole body into one buffer.
pub struct Materialize {
    buffer: Vec<u8>,
    finished: bool,
}

impl View for Materialize {
    type V = Gathered;

    closed spec fn view(&self) -> Gathered {
        Gathered { collected: self.buffer@, finished: self.finished }
    }
}

impl Materialize {
    /// Starts with nothing gathered.
    pub fn new() -> (m: Materialize)
        ensures
            m@ == (Gathered { collected: Seq::empty(), finished: false }),
    {
        Materialize { buffer: Vec::new(), finished: false }
    }

    /// Whether another pull is wanted.
    pub fn wants_more(&self) -> (more: bool)
        ensures
            more == !self@.finished,
    {
        !self.finished
    }

    /// Gives up gathering: further pulls are ignored.
    pub fn close(&mut self)
        ensures
            final(self)@.finished,
    {
        self.finished = true;
        self.buffer = Vec::new();
    }

    /// Takes what a pull brought.
    ///
    /// Bytes are appended to what was gathered. The end of the body hands
    /// out everything gathered. A failure is passed on, and what was
    /// gathered is dropped. After either of the two, every pull is ignored.
    pub fn feed(&mut self, pulled: Pulled) -> (r: Collected)
        ensures
            old(self)@.finished ==> final(self)@.finished && r is Closed,
            !old(self)@.finished ==> match pulled {
                Pulled::Chunk(bytes) => final(self)@ == old(self)@.take(bytes@) && r is More,
                Pulled::Failed(e) => final(self)@.finished && r == Collected::Failed(e),
                Pulled::End => final(self)@.finished && (r matches Collected::Complete(bytes)
                    && bytes@ == old(self)@.collected),
            },
    {
        if self.finished {
            return Collected::Closed;
        }
        match pulled {
            Pulled::Chunk(bytes) => {
                let mut bytes = bytes;
                self.buffer.append(&mut bytes);
                Collected::More
            },
            Pulled::Failed(e) => {
                self.close();
                Collected::Failed(e)
            },
            Pulled::End => {
                self.finished = true;
                let mut all: Vec<u8> = Vec::new();
                std::mem::swap(&mut all, &mut self.buffer);
                Collected::Complete(all)
            },
        }
    }
}

/// The body of a response as a sequence of groups of bytes: single-pass, in
/// order of arrival, and over for good at the end of the body or at the
/// first failure.
pub struct Chunks {
    closed: bool,
}

impl Chunks {
    /// A sequence that has not been pulled on yet.
    pub fn new() -> (chunks: Chunks)
        ensures
            !chunks.is_closed(),
    {
        Chunks { closed: false }
    }

    /// Whether the sequence is over. When it is, the body must not be
    /// pulled on again.
    pub closed spec fn is_closed(&self) -> bool {
        self.closed
    }

    /// Whether another pull on the body is wanted.
    pub fn wants_pull(&self) -> (wanted: bool)
        ensures
            wanted == !self.is_closed(),
    {
        !self.closed
    }

    /// Turns what a pull brought into the next item of the sequence.
    ///
    /// A group of bytes is the next item. A failure is the last item. The
    /// end of the body ends the sequence. Once the sequence is over there
    /// are no items, whatever is fed.
    pub fn next(&mut self, pulled: Pulled) -> (item: Option<Result<Vec<u8>, Error>>)
        ensures
            old(self).is_closed() ==> final(self).is_closed() && item is None,
            !old(self).is_closed() ==> match pulled {
                Pulled::Chunk(bytes) => !final(self).is_closed() && item == Some(
                    Ok::<Vec<u8>, Error>(bytes),
                ),
                Pulled::Failed(e) => final(self).is_closed() && item == Some(
                    Err::<Vec<u8>, Error>(e),
                ),
                Pulled::End => final(self).is_closed() && item is None,
            },
    {
        if self.closed {
            return None;
        }
        match pulled {
            Pulled::Chunk(bytes) => Some(Ok(bytes)),
            Pulled::Failed(e) => {
                self.closed = true;
                Some(Err(e))
            },
            Pulled::End => {
                self.closed = true;
                None
            },
        }
    }
}

/// The rule that a sequence of items ends with its first failure: the
/// failure is the last item that is let through.
pub struct UntilFailure {
    over: bool,
}

impl UntilFailure {
    /// The rule before any item was seen.
    pub fn new() -> (rule: UntilFailure)
        ensures
            !rule.is_over(),
    {
        UntilFailure { over: false }
    }

    /// Whether a failure was let through. When one was, the source of the
    /// items must not be asked for another.
    pub closed spec fn is_over(&self) -> bool {
        self.over
    }

    /// Whether the source of the items may be asked for another.
    pub fn wants_more(&self) -> (wanted: bool)
        ensures
            wanted == !self.is_over(),
    {
        !self.over
    }

    /// Lets an item through, unless a failure was let through before.
    pub fn pass<T>(&mut self, item: Result<T, Error>) -> (out: Option<Result<T, Error>>)
        ensures
            old(self).is_over() ==> final(self).is_over() && out is None,
            !old(self).is_over() ==> out == Some(item) && final(self).is_over() == (item is Err),
    {
        if self.over {
            return None;
        }
        if item.is_err() {
            self.over = true;
        }
        Some(item)
    }
}

/// `String::from_utf8`: the text that the bytes encode, if they are valid
/// UTF-8. If they are not, the outside error's message comes back.
#[verifier::external_body]
fn string_from_utf8(bytes: Vec<u8>) -> (r: Result<String, String>)
    ensures
        r.is_ok() == valid_utf8(bytes@),
        r.is_ok() ==> r.unwrap()@ == decode_utf8(bytes@),
{
    String::from_utf8(bytes).map_err(|e| e.to_string())
}

/// Reads a materialised body as text.
///
/// Succeeds exactly if the bytes are valid UTF-8, with the text they
/// encode. Otherwise fails with `Error::Encoding`.
pub fn into_string(bytes: Vec<u8>) -> (r: Result<String, Error>)
    ensures
        match r {
            Ok(text) => valid_utf8(bytes@) && text@ == decode_utf8(bytes@),
            Err(e) => !valid_utf8(bytes@) && e is Encoding,
        },
{
    match string_from_utf8(bytes) {
        Ok(text) => Ok(text),
        Err(cause) => Err(Error::Encoding(cause)),
    }
}

/// The position of the first line feed in `bytes`, or their number if
/// there is none.
pub open spec fn first_newline(bytes: Seq<u8>) -> int
    decreases bytes.len(),
{
    if bytes.len() == 0 || bytes[0] == 10 {
        0
    } else {
        1 + first_newline(bytes.skip(1))
    }
}

/// The first line feed lies within the bytes or right behind them.
pub proof fn first_newline_in_range(bytes: Seq<u8>)
    ensures
        0 <= first_newline(bytes) <= bytes.len(),
        first_newline(bytes) < bytes.len() ==> bytes[first_newline(bytes)] == 10,
        forall|i: int| 0 <= i < first_newline(bytes) ==> bytes[i] != 10,
    decreases bytes.len(),
{
    if bytes.len() != 0 && bytes[0] != 10 {
        let tail = bytes.skip(1);
        first_newline_in_range(tail);
        assert forall|i: int| 0 <= i < first_newline(bytes) implies bytes[i] != 10 by {
            if i > 0 {
                assert(bytes[i] == tail[i - 1]);
            }
        }
    }
}

/// Whether a whole line, line feed included, is among the bytes.
pub open spec fn has_line(bytes: Seq<u8>) -> bool {
    first_newline(bytes) < bytes.len()
}

/// A line without the carriage return at its end, if it has one.
pub open spec fn without_carriage_return(line: Seq<u8>) -> Seq<u8> {
    if line.len() > 0 && line.last() == 13 {
        line.drop_last()
    } else {
        line
    }
}

/// One item of a stream of lines.
pub enum Line {
    /// The text of a line, without its line ending.
    Text(Seq<char>),
    /// A line that is not valid UTF-8.
    Garbled,
}

/// The first line among the bytes, which must hold one.
pub open spec fn front_line(bytes: Seq<u8>) -> Line
    recommends
        has_line(bytes),
{
    let raw = without_carriage_return(bytes.subrange(0, first_newline(bytes)));
    if valid_utf8(raw) {
        Line::Text(decode_utf8(raw))
    } else {
        Line::Garbled
    }
}

/// What is left of the bytes behind their first line.
pub open spec fn behind_front_line(bytes: Seq<u8>) -> Seq<u8>
    recommends
        has_line(bytes),
{
    bytes.skip(first_newline(bytes) + 1)
}

/// All whole lines among the bytes, in order.
pub open spec fn lines_of(bytes: Seq<u8>) -> Seq<Line>
    decreases bytes.len(),
{
    if has_line(bytes) {
        proof {
            first_newline_in_range(bytes);
        }
        seq![front_line(bytes)] + lines_of(behind_front_line(bytes))
    } else {
        Seq::empty()
    }
}

/// What is left of the bytes behind their last whole line: the beginning of
/// a line that has not ended yet.
pub open spec fn behind_lines(bytes: Seq<u8>) -> Seq<u8>
    decreases bytes.len(),
{
    if has_line(bytes) {
        proof {
            first_newline_in_range(bytes);
        }
        behind_lines(behind_front_line(bytes))
    } else {
        bytes
    }
}

/// The error that stands for a line that is not valid UTF-8: an I/O error of
/// the kind `InvalidData`.
pub open spec fn garbled_line_error(e: Error) -> bool {
    e matches Error::IO(kind, _) && kind == IoKind::InvalidData
}

/// `Decoder::decode` of a new `tokio_util::codec::LinesCodec` without a
/// length limit: takes the first line off the buffer, if a whole line is
/// buffered.
///
/// Without a line feed in the buffer nothing is taken. Otherwise everything
/// up to the first line feed leaves the buffer, and the line is what stood
/// before the line feed, less a carriage return at its end. The line comes
/// back as text if it is valid UTF-8, and as an I/O error of the kind
/// `InvalidData` if it is not.
#[verifier::external_body]
fn lines_codec_decode(src: &mut BytesMut) -> (r: Result<Option<String>, Error>)
    ensures
        match r {
            Ok(None) => !has_line(buffered(*old(src))) && buffered(*final(src)) == buffered(
                *old(src),
            ),
            Ok(Some(line)) => has_line(buffered(*old(src))) && buffered(*final(src))
                == behind_front_line(buffered(*old(src))) && front_line(buffered(*old(src)))
                == Line::Text(line@),
            Err(e) => has_line(buffered(*old(src))) && buffered(*final(src))
                == behind_front_line(buffered(*old(src))) && front_line(buffered(*old(src)))
                is Garbled && garbled_line_error(e),
        },
{
    let mut codec = tokio_util::codec::LinesCodec::new();
    tokio_util::codec::Decoder::decode(&mut codec, src).map_err(
        |e| match e {
            tokio_util::codec::LinesCodecError::MaxLineLengthExceeded => Error::Decode,
            tokio_util::codec::LinesCodecError::Io(e) => match e.kind() {
                std::io::ErrorKind::InvalidInput => Error::IO(IoKind::InvalidInput, e.to_string()),
                std::io::ErrorKind::InvalidData => Error::IO(IoKind::InvalidData, e.to_string()),
                _ => Error::IO(IoKind::Other, e.to_string()),
            },
        },
    )
}

/// The lines that a sequence of decoded items stands for.
pub open spec fn line_views(items: Seq<Result<String, Error>>) -> Seq<Line> {
    items.map_values(
        |item: Result<String, Error>|
            match item {
                Ok(text) => Line::Text(text@),
                Err(_) => Line::Garbled,
            },
    )
}

/// Takes every whole line off the front of `src`.
///
/// Each line is an item of its own: its text, or an `Error::IO` of the kind
/// `InvalidData` if the line is
/// not valid UTF-8, which spoils that item and no other. What is left in the
/// buffer is the beginning of a line that has not ended yet.
pub fn decode_lines(src: &mut BytesMut) -> (items: Vec<Result<String, Error>>)
    ensures
        line_views(items@) == lines_of(buffered(*old(src))),
        buffered(*final(src)) == behind_lines(buffered(*old(src))),
        forall|i: int|
            0 <= i < items@.len() && items@[i] is Err ==> garbled_line_error(items@[i]->Err_0),
{
    let mut items: Vec<Result<String, Error>> = Vec::new();
    assert(line_views(items@) =~= Seq::<Line>::empty());
    loop
        invariant
            lines_of(buffered(*old(src))) == line_views(items@) + lines_of(buffered(*src)),
            behind_lines(buffered(*old(src))) == behind_lines(buffered(*src)),
            forall|i: int|
            0 <= i < items@.len() && items@[i] is Err ==> garbled_line_error(items@[i]->Err_0),
        decreases buffered(*src).len(),
    {
        let ghost before = items@;
        let ghost ahead = buffered(*src);
        proof {
            first_newline_in_range(ahead);
        }
        let item = match lines_codec_decode(src) {
            Ok(None) => {
                assert(line_views(items@) + lines_of(ahead) =~= line_views(items@));
                return items;
            },
            Ok(Some(line)) => Ok(line),
            Err(e) => Err(e),
        };
        items.push(item);
        assert(line_views(items@) =~= line_views(before).push(front_line(ahead)));
        assert(line_views(before) + lines_of(ahead) =~= line_views(items@) + lines_of(
            buffered(*src),
        ));
    }
}

/// Nothing behind the last whole line holds a line feed.
pub proof fn behind_lines_has_no_line(bytes: Seq<u8>)
    ensures
        !has_line(behind_lines(bytes)),
    decreases bytes.len(),
{
    if has_line(bytes) {
        first_newline_in_range(bytes);
        behind_lines_has_no_line(behind_front_line(bytes));
    }
}

/// The line that bytes without a line feed make at the end of a stream:
/// none if there are no bytes or only a carriage return, else the bytes less
/// a carriage return at their end.
pub open spec fn unfinished_line(bytes: Seq<u8>) -> Option<Line>
    recommends
        !has_line(bytes),
{
    if bytes.len() == 0 || bytes == seq![13u8] {
        None
    } else if valid_utf8(without_carriage_return(bytes)) {
        Some(Line::Text(decode_utf8(without_carriage_return(bytes))))
    } else {
        Some(Line::Garbled)
    }
}

/// `Decoder::decode_eof` of a new `tokio_util::codec::LinesCodec` without a
/// length limit: takes the next line off the buffer when no more bytes will
/// arrive.
///
/// With a line feed in the buffer it does what `decode` does. Without one,
/// an empty buffer and a lone carriage return are left alone, and anything
/// else leaves the buffer as the last line, less a carriage return at its
/// end: as text if it is valid UTF-8, and as an I/O error if it is not.
#[verifier::external_body]
fn lines_codec_decode_eof(src: &mut BytesMut) -> (r: Result<Option<String>, Error>)
    ensures
        ({
            let bytes = buffered(*old(src));
            let line = if has_line(bytes) {
                Some(front_line(bytes))
            } else {
                unfinished_line(bytes)
            };
            &&& buffered(*final(src)) == if has_line(bytes) {
                behind_front_line(bytes)
            } else if line is Some {
                Seq::empty()
            } else {
                bytes
            }
            &&& match r {
                Ok(None) => line is None,
                Ok(Some(text)) => line == Some(Line::Text(text@)),
                Err(e) => line == Some(Line::Garbled) && garbled_line_error(e),
            }
        }),
{
    let mut codec = tokio_util::codec::LinesCodec::new();
    tokio_util::codec::Decoder::decode_eof(&mut codec, src).map_err(
        |e| match e {
            tokio_util::codec::LinesCodecError::MaxLineLengthExceeded => Error::Decode,
            tokio_util::codec::LinesCodecError::Io(e) => match e.kind() {
                std::io::ErrorKind::InvalidInput => Error::IO(IoKind::InvalidInput, e.to_string()),
                std::io::ErrorKind::InvalidData => Error::IO(IoKind::InvalidData, e.to_string()),
                _ => Error::IO(IoKind::Other, e.to_string()),
            },
        },
    )
}

/// All lines among the bytes of a stream that has ended: the whole lines,
/// and behind them what the bytes after the last line feed make.
pub open spec fn final_lines(bytes: Seq<u8>) -> Seq<Line> {
    match unfinished_line(behind_lines(bytes)) {
        Some(line) => lines_of(bytes).push(line),
        None => lines_of(bytes),
    }
}

/// What the end of the stream leaves in the buffer: nothing, or a lone
/// carriage return behind the last line feed.
pub open spec fn behind_final_lines(bytes: Seq<u8>) -> Seq<u8> {
    if unfinished_line(behind_lines(bytes)) is Some {
        Seq::empty()
    } else {
        behind_lines(bytes)
    }
}

/// Takes every line off `src` when the stream has ended.
///
/// The items are those of `decode_lines`, followed by one for the bytes
/// behind the last line feed, unless these are none or a lone carriage
/// return.
pub fn decode_final_lines(src: &mut BytesMut) -> (items: Vec<Result<String, Error>>)
    ensures
        line_views(items@) == final_lines(buffered(*old(src))),
        buffered(*final(src)) == behind_final_lines(buffered(*old(src))),
        forall|i: int|
            0 <= i < items@.len() && items@[i] is Err ==> garbled_line_error(items@[i]->Err_0),
{
    let mut items = decode_lines(src);
    let ghost whole = items@;
    proof {
        behind_lines_has_no_line(buffered(*old(src)));
    }
    match lines_codec_decode_eof(src) {
        Ok(None) => {},
        Ok(Some(line)) => {
            items.push(Ok(line));
            assert(line_views(items@) =~= line_views(whole).push(Line::Text(line@)));
        },
        Err(e) => {
            items.push(Err(e));
            assert(line_views(items@) =~= line_views(whole).push(Line::Garbled));
        },
    }
    items
}

} // verus!
