//! Chunk messages as the broker holds them: the envelope around a chunk, and
//! the choice of the payload in a stream read.

use vstd::prelude::*;

use crate::entities::{AppError, AppErrorKind, FileChunkView, FileUploadChunk};

verus! {

/// The envelope in which the broker carries a chunk, with its trace and
/// routing metadata.
#[derive(Clone, Debug)]
pub struct RedisStreamMessage {
    pub tracestate: String,
    pub type_field: String,
    pub source: String,
    pub data: FileUploadChunk,
    pub pubsubname: String,
    pub specversion: String,
    pub traceid: String,
    pub traceparent: String,
    pub topic: String,
}

/// A sample payload of the broker's test messages.
#[derive(Clone, Debug, PartialEq, Eq)]
pub struct Data {
    pub description: String,
    pub price: i64,
    pub widget_field: String,
}

/// One field value of a stream entry.
pub enum StreamValue {
    /// A bulk string: the bytes of a serialized envelope.
    Bytes(Vec<u8>),
    /// Any other kind of value.
    Other,
}

/// One entry of a stream: its id and its field values, in the order read.
pub struct StreamEntry {
    pub id: String,
    pub values: Vec<StreamValue>,
}

/// The entry at `(k, i)` is the first entry, over the streams in order and
/// then over their entries in order, that has at least one value.
pub open spec fn is_first_filled_entry(streams: Seq<Vec<StreamEntry>>, k: int, i: int) -> bool {
    &&& 0 <= k < streams.len()
    &&& 0 <= i < streams[k]@.len()
    &&& streams[k]@[i].values@.len() > 0
    &&& forall|k2: int, i2: int|
        ((0 <= k2 < k && 0 <= i2 < streams[k2]@.len()) || (k2 == k && 0 <= i2 < i)) ==> (
        #[trigger] streams[k2]@[i2]).values@.len() == 0
}

/// The first value of the entry at `(k, i)` is a bulk string holding `bytes`.
pub open spec fn first_value_is_bytes(
    streams: Seq<Vec<StreamEntry>>,
    k: int,
    i: int,
    bytes: Seq<u8>,
) -> bool {
    streams[k]@[i].values@[0] matches StreamValue::Bytes(b) && b@ == bytes
}

/// The read holds no message: no entry of any stream has a value.
pub open spec fn holds_no_message(streams: Seq<Vec<StreamEntry>>) -> bool {
    forall|k: int, i: int|
        0 <= k < streams.len() && 0 <= i < streams[k]@.len() ==> (
        #[trigger] streams[k]@[i]).values@.len() == 0
}

/// Picks the message of a stream read: the first entry that has a value
/// must hold a bulk string as its first value. Returns that entry's id and
/// bytes. A read with no message is `NotFound`; a first entry whose first
/// value is of another kind is an unmarshalling error.
pub fn select_stream_payload<'a>(streams: &'a Vec<Vec<StreamEntry>>) -> (r: Result<
    (&'a String, &'a Vec<u8>),
    AppError,
>)
    ensures
        r matches Ok(payload) ==> exists|k: int, i: int|
            {
                &&& is_first_filled_entry(streams@, k, i)
                &&& first_value_is_bytes(streams@, k, i, payload.1@)
                &&& payload.0@ == streams@[k]@[i].id@
            },
        r matches Err(e) ==> {
            ||| e.kind == AppErrorKind::NotFound && holds_no_message(streams@)
            ||| e.kind == AppErrorKind::ResponseUnmarshalError && exists|k: int, i: int|
                #[trigger] is_first_filled_entry(streams@, k, i) && !(
                streams@[k]@[i].values@[0] is Bytes)
        },
        holds_no_message(streams@) ==> r is Err,
{
    let mut k: usize = 0;
    while k < streams.len()
        invariant
            k <= streams@.len(),
            forall|k2: int, i2: int|
                0 <= k2 < k && 0 <= i2 < streams@[k2]@.len() ==> (
                #[trigger] streams@[k2]@[i2]).values@.len() == 0,
        decreases streams@.len() - k,
    {
        let entries = &streams[k];
        let mut i: usize = 0;
        while i < entries.len()
            invariant
                k < streams@.len(),
                entries == streams@[k as int],
                i <= entries@.len(),
                forall|k2: int, i2: int|
                    ((0 <= k2 < k && 0 <= i2 < streams@[k2]@.len()) || (k2 == k && 0 <= i2 < i))
                        ==> (#[trigger] streams@[k2]@[i2]).values@.len() == 0,
            decreases entries@.len() - i,
        {
            let entry = &entries[i];
            if entry.values.len() > 0 {
                assert(is_first_filled_entry(streams@, k as int, i as int));
                match &entry.values[0] {
                    StreamValue::Bytes(bytes) => {
                        return Ok((&entry.id, bytes));
                    },
                    StreamValue::Other => {
                        return Err(
                            stream_read_error(AppErrorKind::ResponseUnmarshalError),
                        );
                    },
                }
            }
            i = i + 1;
        }
        k = k + 1;
    }
    Err(stream_read_error(AppErrorKind::NotFound))
}

/// The error of kind `kind` for a stream read that yields no chunk.
fn stream_read_error(kind: AppErrorKind) -> (r: AppError)
    ensures
        r.kind == kind,
{
    AppError::new(kind, String::from_str("No Data returned"))
}

impl RedisStreamMessage {
    /// The chunk that the envelope carries, under the id of the stream entry
    /// that held it.
    pub fn into_file_chunk(self, stream_entry_id: String) -> (r: FileUploadChunk)
        ensures
            r@ == (FileChunkView { id: stream_entry_id@, ..self.data@ }),
    {
        let mut chunk = self.data;
        chunk.id = stream_entry_id;
        chunk
    }
}

} // verus!
