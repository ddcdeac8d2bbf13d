use vstd::prelude::*;
use vstd::bytes::spec_u64_to_le_bytes;
use vstd::utf8::encode_utf8;
use crate::utils::cfg::recent::texts;

pub mod flags;
pub mod recent;
pub mod script;

verus! {

/// What is written where a file of the settings does not exist yet.
pub trait DefaultBytes {
    fn default_bytes() -> Vec<u8>;
}

/// What `zstd::decode_all` makes of `bytes`: the data that they unpack to,
/// or `None` where they are no zstd frames.
pub uninterp spec fn zstd_decoded(bytes: Seq<u8>) -> Option<Seq<u8>>;

/// What `bincode::deserialize` reads from `bytes` as a list of texts, or
/// `None` where they hold no such list.
pub uninterp spec fn bincode_paths(bytes: Seq<u8>) -> Option<Seq<Seq<char>>>;

/// What `bincode::serialize` makes of a list of texts: the bytes that it
/// writes, or `None` where it writes none.
pub uninterp spec fn bincode_written(list: Seq<Seq<char>>) -> Option<Seq<u8>>;

/// What `zstd::encode_all` makes of `data` at that level: the frame that
/// it packs them into, or `None` where it packs none.
pub uninterp spec fn zstd_encoded(data: Seq<u8>, level: i32) -> Option<Seq<u8>>;

/// Bytes that may be missing, as contracts see them.
pub open spec fn bytes_of(bytes: Option<Vec<u8>>) -> Option<Seq<u8>> {
    match bytes {
        Some(bytes) => Some(bytes@),
        None => None,
    }
}

/// A list of paths that may be missing, as contracts see it.
pub open spec fn paths_of(paths: Option<Vec<String>>) -> Option<Seq<Seq<char>>> {
    match paths {
        Some(paths) => Some(texts(paths@)),
        None => None,
    }
}

/// Unpacks zstd frames.
///
/// This is `zstd::decode_all`, with `None` for its error. The contract gives
/// its result a name and claims nothing else of it.
#[verifier::external_body]
fn zstd_decode(bytes: &[u8]) -> (data: Option<Vec<u8>>)
    ensures
        bytes_of(data) == zstd_decoded(bytes@),
{
    zstd::decode_all(bytes).ok()
}

/// Packs data into a zstd frame.
///
/// This is `zstd::encode_all`, with `None` for its error. The contract gives
/// its result a name, and claims that what comes out unpacks to what went in,
/// at any level.
#[verifier::external_body]
fn zstd_encode(data: &[u8], level: i32) -> (bytes: Option<Vec<u8>>)
    ensures
        bytes_of(bytes) == zstd_encoded(data@, level),
        bytes matches Some(bytes) ==> zstd_decoded(bytes@) == Some(data@),
{
    zstd::encode_all(data, level).ok()
}

/// Reads a list of texts.
///
/// This is `bincode::deserialize` for a `Vec<String>`, with `None` for its
/// error. The contract gives its result a name and claims nothing else of
/// it.
#[verifier::external_body]
fn bincode_decode(bytes: &[u8]) -> (paths: Option<Vec<String>>)
    ensures
        paths_of(paths) == bincode_paths(bytes@),
{
    bincode::deserialize::<Vec<String>>(bytes).ok()
}

/// A text as bincode writes it: the number of its bytes in eight bytes,
/// the lowest first, and then the bytes.
pub open spec fn encoded_text(text: Seq<char>) -> Seq<u8> {
    spec_u64_to_le_bytes(encode_utf8(text).len() as u64) + encode_utf8(text)
}

/// The texts of a list as bincode writes them, one behind the other.
pub open spec fn encoded_texts(list: Seq<Seq<char>>) -> Seq<u8>
    decreases list.len(),
{
    if list.len() == 0 {
        Seq::empty()
    } else {
        encoded_texts(list.drop_last()) + encoded_text(list.last())
    }
}

/// A list of texts as bincode writes it: the number of the texts in eight
/// bytes, the lowest first, and then the texts.
pub open spec fn encoded(list: Seq<Seq<char>>) -> Seq<u8> {
    spec_u64_to_le_bytes(list.len() as u64) + encoded_texts(list)
}

/// Writes a list of texts.
///
/// This is `bincode::serialize` on a `Vec<String>`, with `None` for its
/// error. The contract gives its result a name, and claims that what comes
/// out is the list as bincode writes it with lengths of a fixed width and
/// the lowest byte first, as the functions of bincode do, and that it reads
/// as what went in.
#[verifier::external_body]
fn bincode_encode(paths: &Vec<String>) -> (bytes: Option<Vec<u8>>)
    ensures
        bytes_of(bytes) == bincode_written(texts(paths@)),
        bytes matches Some(bytes) ==> bytes@ == encoded(texts(paths@)),
        bytes matches Some(bytes) ==> bincode_paths(bytes@) == Some(texts(paths@)),
{
    bincode::serialize(paths).ok()
}

/// The compression level that stands for the default of zstd.
pub const LEVEL: i32 = 0;

/// The list of paths that a file of `bytes` holds: what the bytes unpack
/// and read to, and the empty list where they do not.
pub open spec fn stored(bytes: Seq<u8>) -> Seq<Seq<char>> {
    match zstd_decoded(bytes) {
        Some(data) => match bincode_paths(data) {
            Some(paths) => paths,
            None => Seq::empty(),
        },
        None => Seq::empty(),
    }
}

/// The list of paths that was read, or the empty list where the file could
/// not be unpacked or read.
pub fn list_or_default(data: Option<Vec<u8>>, read: Option<Vec<String>>) -> (paths: Vec<String>)
    ensures
        texts(paths@) == match (data, read) {
            (Some(_), Some(list)) => texts(list@),
            _ => Seq::empty(),
        },
{
    match (data, read) {
        (Some(_), Some(list)) => list,
        _ => {
            let empty: Vec<String> = Vec::new();
            assert(texts(empty@) =~= Seq::empty());
            empty
        },
    }
}

/// The list of paths that a file of these bytes holds. A file that cannot
/// be unpacked or read holds the empty list.
pub fn deserialize_or_default(bytes: &[u8]) -> (paths: Vec<String>)
    ensures
        texts(paths@) == stored(bytes@),
{
    let data = zstd_decode(bytes);
    let read = match &data {
        Some(data) => bincode_decode(data.as_slice()),
        None => None,
    };
    list_or_default(data, read)
}

/// The bytes of the file, given what came of writing the list and of
/// packing what was written: the frame, where both came to something.
pub fn frame_or_none(data: Option<Vec<u8>>, frame: Option<Vec<u8>>) -> (bytes: Option<Vec<u8>>)
    ensures
        bytes_of(bytes) == match (data, frame) {
            (Some(_), Some(frame)) => Some(frame@),
            _ => None,
        },
{
    match (data, frame) {
        (Some(_), Some(frame)) => Some(frame),
        _ => None,
    }
}

/// The bytes of the file that holds a list of paths: the frame that zstd
/// packs what bincode writes of the list into, and none where either makes
/// nothing of it.
pub open spec fn written(list: Seq<Seq<char>>) -> Option<Seq<u8>> {
    match bincode_written(list) {
        Some(data) => zstd_encoded(data, LEVEL),
        None => None,
    }
}

/// The bytes of a file that holds this list of paths: a zstd frame of the
/// list as bincode writes it. There are none where bincode or zstd makes
/// nothing of the list.
pub fn serialize(paths: &Vec<String>) -> (bytes: Option<Vec<u8>>)
    ensures
        bytes_of(bytes) == written(texts(paths@)),
        bytes matches Some(bytes) ==> zstd_decoded(bytes@) == Some(encoded(texts(paths@))),
        bytes matches Some(bytes) ==> stored(bytes@) == texts(paths@),
{
    let data = bincode_encode(paths);
    let frame = match &data {
        Some(data) => zstd_encode(data.as_slice(), LEVEL),
        None => None,
    };
    frame_or_none(data, frame)
}

/// What is written where the file does not exist yet, given the bytes of a
/// file that holds the empty list: those bytes, and nothing where there are
/// none.
pub fn bytes_or_empty(bytes: Option<Vec<u8>>) -> (written: Vec<u8>)
    ensures
        written@ == match bytes {
            Some(bytes) => bytes@,
            None => Seq::empty(),
        },
{
    match bytes {
        Some(bytes) => bytes,
        None => Vec::new(),
    }
}

} // verus!
