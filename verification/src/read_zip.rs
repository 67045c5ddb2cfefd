use crate::error::{PmaError, PmaErrorView};
use async_compression::tokio::bufread::{DeflateDecoder, GzipDecoder};
use std::future::Future;
use std::task::{Context, Poll, Waker};
use tokio::io::AsyncReadExt;
use vstd::prelude::*;
use vstd::slice::slice_subrange;

verus! {

/// Signature that opens every local entry header.
pub const LOCAL_FILE_HEADER_SIGNATURE: u32 = 0x04034b50;

/// The one compression method that entries may use: raw deflate.
pub const METHOD_DEFLATE: u16 = 8;

/// Bytes of a local entry header, signature included, before the file name.
pub const FIXED_HEADER_LEN: usize = 30;

/// What a local entry header declares of its entry. The two sizes are the
/// header's word, which the content is not held to.
#[derive(Debug)]
pub struct LocalHeader {
    pub file_name: String,
    pub compression_method: u16,
    pub compressed_size: u32,
    pub uncompressed_size: u32,
}

/// One entry of the container: its header and its inflated content.
#[derive(Debug)]
pub struct LocalFile {
    pub header: LocalHeader,
    pub content: Vec<u8>,
}

/// Mathematical value of a `LocalHeader`.
pub ghost struct LocalHeaderView {
    pub file_name: Seq<char>,
    pub compression_method: u16,
    pub compressed_size: u32,
    pub uncompressed_size: u32,
}

/// Mathematical value of a `LocalFile`.
pub ghost struct LocalFileView {
    pub header: LocalHeaderView,
    pub content: Seq<u8>,
}

impl View for LocalHeader {
    type V = LocalHeaderView;

    open spec fn view(&self) -> LocalHeaderView {
        LocalHeaderView {
            file_name: self.file_name@,
            compression_method: self.compression_method,
            compressed_size: self.compressed_size,
            uncompressed_size: self.uncompressed_size,
        }
    }
}

impl View for LocalFile {
    type V = LocalFileView;

    open spec fn view(&self) -> LocalFileView {
        LocalFileView { header: self.header@, content: self.content@ }
    }
}

/// The views of a list of entries, in order.
pub open spec fn files_view(v: Seq<LocalFile>) -> Seq<LocalFileView> {
    Seq::new(v.len(), |i: int| v[i]@)
}

/// What a gzip decoder delivers for `data`: the bytes it produces before it
/// stops, and whether it stopped at the clean end of the first gzip member
/// (`true`) or on a decoding failure (`false`).
pub uninterp spec fn gzip_decoded(data: Seq<u8>) -> (Seq<u8>, bool);

/// What a raw deflate decoder gives for `payload`: the content of the
/// deflate stream that `payload` starts with, or `None` where decoding fails
/// or the payload ends before the stream does.
pub uninterp spec fn inflated(payload: Seq<u8>) -> Option<Seq<u8>>;

/// The text that a lossy UTF-8 decoding of `bytes` gives: valid sequences as
/// they are, each invalid one replaced by U+FFFD.
pub uninterp spec fn utf8_lossy(bytes: Seq<u8>) -> Seq<char>;

/// Little-endian 16-bit number at `at`.
pub open spec fn le16(s: Seq<u8>, at: int) -> int {
    s[at] as int + 256 * (s[at + 1] as int)
}

/// Little-endian 32-bit number at `at`.
pub open spec fn le32(s: Seq<u8>, at: int) -> int {
    le16(s, at) + 65536 * le16(s, at + 2)
}

/// The error of a read that wants more bytes than the stream delivered.
pub open spec fn short_read(complete: bool) -> PmaErrorView {
    if complete {
        PmaErrorView::TruncatedArchive
    } else {
        PmaErrorView::CorruptArchive
    }
}

/// The header that starts at `pos` and the position of the entry's payload;
/// `Ok(None)` where no entry starts at `pos`: the stream ended cleanly just
/// there, or the four bytes at `pos` are not the entry signature.
pub open spec fn header_at(s: Seq<u8>, complete: bool, pos: int) -> Result<
    Option<(LocalHeaderView, int)>,
    PmaErrorView,
> {
    if pos == s.len() && complete {
        Ok(None)
    } else if s.len() - pos < 4 {
        Err(short_read(complete))
    } else if le32(s, pos) != LOCAL_FILE_HEADER_SIGNATURE {
        Ok(None)
    } else if s.len() - pos < 30 || s.len() - pos - 30 < le16(s, pos + 26) + le16(s, pos + 28) {
        Err(short_read(complete))
    } else {
        let name_end = pos + 30 + le16(s, pos + 26);
        Ok(
            Some(
                (
                    LocalHeaderView {
                        file_name: utf8_lossy(s.subrange(pos + 30, name_end)),
                        compression_method: le16(s, pos + 8) as u16,
                        compressed_size: le32(s, pos + 18) as u32,
                        uncompressed_size: le32(s, pos + 22) as u32,
                    },
                    name_end + le16(s, pos + 28),
                ),
            ),
        )
    }
}

/// The entry that starts at `pos` and the position after it.
pub open spec fn file_at(s: Seq<u8>, complete: bool, pos: int) -> Result<
    Option<(LocalFileView, int)>,
    PmaErrorView,
> {
    match header_at(s, complete, pos) {
        Err(e) => Err(e),
        Ok(None) => Ok(None),
        Ok(Some((header, body))) => {
            if header.compression_method != METHOD_DEFLATE {
                Err(PmaErrorView::UnsupportedCompression(header.compression_method))
            } else if s.len() - body < header.compressed_size {
                Err(short_read(complete))
            } else {
                match inflated(s.subrange(body, body + header.compressed_size)) {
                    None => Err(PmaErrorView::CorruptArchive),
                    Some(content) => Ok(
                        Some((LocalFileView { header, content }, body + header.compressed_size)),
                    ),
                }
            }
        },
    }
}

/// The entries of the container from `pos` on, in physical order, up to the
/// clean end of the stream or the first position that does not hold an entry
/// signature; the first failure takes the place of the whole result.
pub open spec fn entries_from(s: Seq<u8>, complete: bool, pos: int) -> Result<
    Seq<LocalFileView>,
    PmaErrorView,
>
    decreases s.len() - pos,
{
    match file_at(s, complete, pos) {
        Err(e) => Err(e),
        Ok(None) => Ok(Seq::empty()),
        Ok(Some((file, next))) => {
            if pos < next <= s.len() {
                match entries_from(s, complete, next) {
                    Err(e) => Err(e),
                    Ok(rest) => Ok(seq![file] + rest),
                }
            } else {
                Ok(Seq::empty())
            }
        },
    }
}

/// `acc`, then what `rest` holds; the failure of `rest` where it has one.
pub open spec fn prepend(acc: Seq<LocalFileView>, rest: Result<Seq<LocalFileView>, PmaErrorView>)
    -> Result<Seq<LocalFileView>, PmaErrorView> {
    match rest {
        Err(e) => Err(e),
        Ok(r) => Ok(acc + r),
    }
}

/// Runs async-compression's `GzipDecoder` over `data` with tokio's
/// `read_to_end`; a slice is always ready, so the read ends at the first
/// poll. The contract names what comes back: the bytes delivered before the
/// decoder stopped, and whether it stopped without an error.
#[verifier::external_body]
fn gunzip(data: &[u8]) -> (r: (Vec<u8>, bool))
    ensures
        (r.0@, r.1) == gzip_decoded(data@),
{
    let mut out = Vec::new();
    let mut decoder = GzipDecoder::new(data);
    let mut reading = Box::pin(decoder.read_to_end(&mut out));
    let mut cx = Context::from_waker(Waker::noop());
    let ok = loop {
        if let Poll::Ready(r) = reading.as_mut().poll(&mut cx) {
            break r.is_ok();
        }
    };
    drop(reading);
    (out, ok)
}

/// Runs async-compression's `DeflateDecoder` over `payload` with tokio's
/// `read_to_end`, into a buffer allocated for `capacity` bytes; a slice is
/// always ready, so the read ends at the first poll. The contract
/// names the outcome; the capacity has no part in it, but must be one that
/// `Vec::with_capacity` accepts.
#[verifier::external_body]
fn inflate(payload: &[u8], capacity: usize) -> (r: Option<Vec<u8>>)
    requires
        capacity <= isize::MAX,
    ensures
        match r {
            Some(content) => inflated(payload@) == Some(content@),
            None => inflated(payload@).is_none(),
        },
{
    let mut out = Vec::with_capacity(capacity);
    let mut decoder = DeflateDecoder::new(payload);
    let mut reading = Box::pin(decoder.read_to_end(&mut out));
    let mut cx = Context::from_waker(Waker::noop());
    let done = loop {
        if let Poll::Ready(r) = reading.as_mut().poll(&mut cx) {
            break r;
        }
    };
    drop(reading);
    done.ok().map(|_| out)
}

/// std's `String::from_utf8_lossy`, made into an owned `String`. The contract
/// names the text it gives.
#[verifier::external_body]
fn decode_name(bytes: &[u8]) -> (r: String)
    ensures
        r@ == utf8_lossy(bytes@),
{
    String::from_utf8_lossy(bytes).into_owned()
}

/// Reads the little-endian 16-bit number at `at`.
pub fn read_u16_le(stream: &[u8], at: usize) -> (r: u16)
    requires
        at + 2 <= stream@.len(),
    ensures
        r == le16(stream@, at as int),
{
    let lo: u16 = stream[at] as u16;
    let hi: u16 = stream[at + 1] as u16;
    lo + 256 * hi
}

/// Reads the little-endian 32-bit number at `at`.
pub fn read_u32_le(stream: &[u8], at: usize) -> (r: u32)
    requires
        at + 4 <= stream@.len(),
    ensures
        r == le32(stream@, at as int),
{
    let len = stream.len();
    assert(at + 4 <= len);
    let lo: u32 = read_u16_le(stream, at) as u32;
    let hi: u32 = read_u16_le(stream, at + 2) as u32;
    lo + 65536 * hi
}

/// The error for a read that the stream could not satisfy.
pub fn short_read_error(complete: bool) -> (e: PmaError)
    ensures
        e@ == short_read(complete),
{
    if complete {
        PmaError::TruncatedArchive
    } else {
        PmaError::CorruptArchive
    }
}

/// Parses the local entry header at `pos` of a decompressed stream. Gives the
/// header and the position of the entry's payload, or `None` where no entry
/// starts at `pos`: the stream ended cleanly just there, or the four bytes at
/// `pos` are not the entry signature.
pub fn read_local_header(stream: &[u8], complete: bool, pos: usize) -> (r: Result<
    Option<(LocalHeader, usize)>,
    PmaError,
>)
    ensures
        match r {
            Err(e) => header_at(stream@, complete, pos as int) == Err::<
                Option<(LocalHeaderView, int)>,
                PmaErrorView,
            >(e@),
            Ok(None) => header_at(stream@, complete, pos as int) == Ok::<
                Option<(LocalHeaderView, int)>,
                PmaErrorView,
            >(None),
            Ok(Some((header, body))) => header_at(stream@, complete, pos as int) == Ok::<
                Option<(LocalHeaderView, int)>,
                PmaErrorView,
            >(Some((header@, body as int))) && pos + 30 <= body <= stream@.len(),
        },
{
    let len = stream.len();
    if pos == len && complete {
        return Ok(None);
    }
    if pos > len || len - pos < 4 {
        return Err(short_read_error(complete));
    }
    let signature = read_u32_le(stream, pos);
    if signature != LOCAL_FILE_HEADER_SIGNATURE {
        return Ok(None);
    }
    if len - pos < FIXED_HEADER_LEN {
        return Err(short_read_error(complete));
    }
    let compression_method = read_u16_le(stream, pos + 8);
    let compressed_size = read_u32_le(stream, pos + 18);
    let uncompressed_size = read_u32_le(stream, pos + 22);
    let file_name_length = read_u16_le(stream, pos + 26) as usize;
    let extra_field_length = read_u16_le(stream, pos + 28) as usize;
    let name_start = pos + FIXED_HEADER_LEN;
    if len - name_start < file_name_length || len - name_start - file_name_length
        < extra_field_length {
        return Err(short_read_error(complete));
    }
    let name_end = name_start + file_name_length;
    let file_name = decode_name(slice_subrange(stream, name_start, name_end));
    Ok(
        Some(
            (
                LocalHeader { file_name, compression_method, compressed_size, uncompressed_size },
                name_end + extra_field_length,
            ),
        ),
    )
}

/// Reads the entry at `pos` of a decompressed stream: its header, then its
/// payload, inflated. Gives the entry and the position after it, or `None`
/// where no entry starts at `pos`.
pub fn read_local_file(stream: &[u8], complete: bool, pos: usize) -> (r: Result<
    Option<(LocalFile, usize)>,
    PmaError,
>)
    ensures
        match r {
            Err(e) => file_at(stream@, complete, pos as int) == Err::<
                Option<(LocalFileView, int)>,
                PmaErrorView,
            >(e@),
            Ok(None) => file_at(stream@, complete, pos as int) == Ok::<
                Option<(LocalFileView, int)>,
                PmaErrorView,
            >(None),
            Ok(Some((file, next))) => file_at(stream@, complete, pos as int) == Ok::<
                Option<(LocalFileView, int)>,
                PmaErrorView,
            >(Some((file@, next as int))) && pos + 30 <= next <= stream@.len(),
        },
{
    let (header, body) = match read_local_header(stream, complete, pos) {
        Err(e) => {
            return Err(e);
        },
        Ok(None) => {
            return Ok(None);
        },
        Ok(Some(found)) => found,
    };
    if header.compression_method != METHOD_DEFLATE {
        return Err(PmaError::UnsupportedCompression(header.compression_method));
    }
    let size = header.compressed_size as usize;
    if stream.len() - body < size {
        return Err(short_read_error(complete));
    }
    let payload = slice_subrange(stream, body, body + size);
    let declared = header.uncompressed_size as usize;
    let hint = if declared <= isize::MAX as usize {
        declared
    } else {
        isize::MAX as usize
    };
    match inflate(payload, hint) {
        None => Err(PmaError::CorruptArchive),
        Some(content) => Ok(Some((LocalFile { header, content }, body + size))),
    }
}

/// Decodes the entries of a decompressed container stream, front to back.
/// `complete` says whether the stream ended cleanly or broke off on a
/// decoding failure. A clean end behind the last entry ends the container; a
/// stream that broke off there, or that ends inside an entry, is a failure.
pub fn decode_entries(stream: &[u8], complete: bool) -> (r: Result<Vec<LocalFile>, PmaError>)
    ensures
        match r {
            Ok(files) => entries_from(stream@, complete, 0) == Ok::<
                Seq<LocalFileView>,
                PmaErrorView,
            >(files_view(files@)),
            Err(e) => entries_from(stream@, complete, 0) == Err::<
                Seq<LocalFileView>,
                PmaErrorView,
            >(e@),
        },
{
    let mut files: Vec<LocalFile> = Vec::new();
    let mut pos: usize = 0;
    assert(files_view(files@) + Seq::<LocalFileView>::empty() =~= files_view(files@));
    loop
        invariant
            pos <= stream@.len(),
            entries_from(stream@, complete, 0) == prepend(
                files_view(files@),
                entries_from(stream@, complete, pos as int),
            ),
        decreases stream@.len() - pos,
    {
        match read_local_file(stream, complete, pos) {
            Err(e) => {
                return Err(e);
            },
            Ok(None) => {
                assert(files_view(files@) + Seq::<LocalFileView>::empty() =~= files_view(files@));
                return Ok(files);
            },
            Ok(Some((file, next))) => {
                proof {
                    let before = files_view(files@);
                    let after = files_view(files@.push(file));
                    assert(after =~= before.push(file@));
                    match entries_from(stream@, complete, next as int) {
                        Ok(rest) => {
                            assert(before + (seq![file@] + rest) =~= after + rest);
                        },
                        Err(_) => {},
                    }
                }
                files.push(file);
                pos = next;
            },
        }
    }
}

/// A stream that does not open with the entry signature holds no entries:
/// the result is empty, and no failure.
pub proof fn lemma_foreign_signature_gives_nothing(s: Seq<u8>, complete: bool)
    requires
        s.len() >= 4,
        le32(s, 0) != LOCAL_FILE_HEADER_SIGNATURE,
    ensures
        entries_from(s, complete, 0) == Ok::<Seq<LocalFileView>, PmaErrorView>(Seq::empty()),
{
}

/// A stream that ends cleanly where the next entry would start holds no
/// further entry: a container needs nothing behind its last entry, and an
/// empty stream is an empty container.
pub proof fn lemma_clean_end_gives_nothing(s: Seq<u8>)
    ensures
        entries_from(s, true, s.len() as int) == Ok::<Seq<LocalFileView>, PmaErrorView>(
            Seq::empty(),
        ),
{
}

/// An entry whose header declares another method than deflate fails the
/// decode from that entry on with the error that carries the method.
pub proof fn lemma_unsupported_method_fails(s: Seq<u8>, complete: bool, pos: int)
    requires
        header_at(s, complete, pos) is Ok,
        header_at(s, complete, pos)->Ok_0 is Some,
        header_at(s, complete, pos)->Ok_0->Some_0.0.compression_method != METHOD_DEFLATE,
    ensures
        entries_from(s, complete, pos) == Err::<Seq<LocalFileView>, PmaErrorView>(
            PmaErrorView::UnsupportedCompression(
                header_at(s, complete, pos)->Ok_0->Some_0.0.compression_method,
            ),
        ),
{
}

/// A failure behind a well-formed entry is the result of the whole decode:
/// the entries read before it are not returned.
pub proof fn lemma_failure_discards_earlier_entries(s: Seq<u8>, complete: bool, pos: int)
    requires
        0 <= pos,
        file_at(s, complete, pos) is Ok,
        file_at(s, complete, pos)->Ok_0 is Some,
        entries_from(s, complete, file_at(s, complete, pos)->Ok_0->Some_0.1) is Err,
    ensures
        entries_from(s, complete, pos) == entries_from(
            s,
            complete,
            file_at(s, complete, pos)->Ok_0->Some_0.1,
        ),
{
}

/// Entries come out in physical order: the entry at `pos` is the first of
/// the result, and the entries behind it follow.
pub proof fn lemma_entries_in_physical_order(s: Seq<u8>, complete: bool, pos: int)
    requires
        0 <= pos,
        file_at(s, complete, pos) is Ok,
        file_at(s, complete, pos)->Ok_0 is Some,
        entries_from(s, complete, file_at(s, complete, pos)->Ok_0->Some_0.1) is Ok,
    ensures
        entries_from(s, complete, pos) == Ok::<Seq<LocalFileView>, PmaErrorView>(
            seq![file_at(s, complete, pos)->Ok_0->Some_0.0] + entries_from(
                s,
                complete,
                file_at(s, complete, pos)->Ok_0->Some_0.1,
            )->Ok_0,
        ),
{
}

/// Decodes a gzip-wrapped container: decompresses the gzip envelope and
/// parses the entries of the stream inside, inflating each.
pub fn read_zip(zip: &[u8]) -> (r: Result<Vec<LocalFile>, PmaError>)
    ensures
        match r {
            Ok(files) => entries_from(gzip_decoded(zip@).0, gzip_decoded(zip@).1, 0) == Ok::<
                Seq<LocalFileView>,
                PmaErrorView,
            >(files_view(files@)),
            Err(e) => entries_from(gzip_decoded(zip@).0, gzip_decoded(zip@).1, 0) == Err::<
                Seq<LocalFileView>,
                PmaErrorView,
            >(e@),
        },
{
    let (stream, complete) = gunzip(zip);
    decode_entries(stream.as_slice(), complete)
}

} // verus!
