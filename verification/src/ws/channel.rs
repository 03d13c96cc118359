//! Batching of offers for the websocket clients.
//!
//! Offers are collected as they arrive and sent together when the interval
//! timer fires, one frame for each offer, oldest first.

use vstd::prelude::*;

verus! {

/// Milliseconds between two batches.
pub const TRANSMIT_INTERVAL_MS: u64 = 300;

/// One offer for the clients, with the time at which it was received.
pub struct Data {
    pub offer: String,
    pub ts: String,
}

/// What the relay is woken up by.
pub enum RelayInput {
    /// An offer arrived.
    Received(Data),
    /// The interval timer fired.
    Tick,
}

/// The compact JSON text that `serde_json` writes for an object with two
/// members whose values are strings.
pub uninterp spec fn json_object(
    first_key: Seq<char>,
    first: Seq<char>,
    second_key: Seq<char>,
    second: Seq<char>,
) -> Seq<char>;

/// The frame that carries an offer: `{"offer":...,"ts":...}`.
pub open spec fn frame_of(data: Data) -> Seq<char> {
    json_object("offer"@, data.offer@, "ts"@, data.ts@)
}

/// The frames of a batch, one for each offer and in their order.
pub open spec fn frames_of(batch: Seq<Data>) -> Seq<Seq<char>> {
    Seq::new(batch.len(), |i: int| frame_of(batch[i]))
}

/// Writes a JSON object of two string members with `serde_json`: a `Map`
/// filled by `insert`, rendered by `Value`'s `Display`.
///
/// Trusted: the text depends on the four strings alone.
#[verifier::external_body]
fn render_object(first_key: &str, first: &str, second_key: &str, second: &str) -> (text: String)
    ensures
        text@ == json_object(first_key@, first@, second_key@, second@),
{
    let mut object = serde_json::Map::new();
    object.insert(first_key.to_string(), serde_json::Value::from(first));
    object.insert(second_key.to_string(), serde_json::Value::from(second));
    serde_json::Value::Object(object).to_string()
}

/// Renders the frame of one offer.
pub fn frame(data: &Data) -> (text: String)
    ensures
        text@ == frame_of(*data),
{
    render_object("offer", data.offer.as_str(), "ts", data.ts.as_str())
}

/// One step of the relay. An offer that arrives joins the batch and nothing
/// is sent. When the timer fires, the frames of the whole batch are handed
/// out for sending and the batch starts anew.
pub fn transmit(buffer: &mut Vec<Data>, input: RelayInput) -> (frames: Vec<String>)
    ensures
        match input {
            RelayInput::Received(data) => {
                &&& final(buffer)@ == old(buffer)@.push(data)
                &&& frames@.len() == 0
            },
            RelayInput::Tick => {
                &&& final(buffer)@.len() == 0
                &&& frames@.map_values(|f: String| f@) == frames_of(old(buffer)@)
            },
        },
{
    let mut frames: Vec<String> = Vec::new();
    match input {
        RelayInput::Received(data) => {
            buffer.push(data);
        },
        RelayInput::Tick => {
            let mut i: usize = 0;
            while i < buffer.len()
                invariant
                    i <= buffer.len(),
                    *buffer == *old(buffer),
                    frames@.len() == i,
                    forall|j: int| 0 <= j < i ==> (#[trigger] frames@[j])@ == frame_of(buffer@[j]),
                decreases buffer.len() - i,
            {
                frames.push(frame(&buffer[i]));
                i += 1;
            }
            proof {
                assert(frames@.map_values(|f: String| f@) =~= frames_of(old(buffer)@));
            }
            buffer.clear();
        },
    }
    frames
}

} // verus!
