//! Helpers shared by the ECU protocol parsers.

use vstd::prelude::*;

use crate::messages::{CanFrameData, Message, MessageModel};

verus! {

/// The number of payload bytes a raw frame record keeps: at most 8.
pub open spec fn kept_len(len: nat) -> nat {
    if len < 8 {
        len
    } else {
        8
    }
}

/// A frame forwarded as is: the first (at most 8) bytes, zero filled, with
/// the number of bytes kept as DLC.
pub open spec fn raw_frame_model(id: u32, data: Seq<u8>) -> MessageModel {
    let n = kept_len(data.len());
    MessageModel::CanFrame {
        can_id: id,
        data: Seq::new(8, |i: int| if i < n { data[i] } else { 0u8 }),
        dlc: n as u8,
    }
}

/// A frame forwarded raw keeps its id, carries its first bytes (at most 8)
/// in order with the rest zero, and has as DLC the number of bytes kept.
pub proof fn lemma_raw_frame_layout(id: u32, d: Seq<u8>)
    ensures
        raw_frame_model(id, d) matches MessageModel::CanFrame { can_id, data, dlc } && {
            &&& can_id == id
            &&& data.len() == 8
            &&& dlc == (if d.len() < 8 { d.len() } else { 8 })
            &&& forall|i: int| 0 <= i < 8 ==> #[trigger] data[i] == (if i < d.len() { d[i] } else { 0u8 })
        },
{
}

/// Wraps a raw frame when a parser does not recognise the payload.
pub fn raw_frame_to_message(id: u32, data: &[u8]) -> (m: Message)
    ensures
        m@ == raw_frame_model(id, data@),
{
    let mut d = [0u8; 8];
    let copy_len: usize = if data.len() < 8 {
        data.len()
    } else {
        8
    };
    let mut i: usize = 0;
    while i < copy_len
        invariant
            copy_len == kept_len(data@.len()),
            i <= copy_len,
            forall|j: int| 0 <= j < i ==> d@[j] == data@[j],
            forall|j: int| i <= j < 8 ==> d@[j] == 0u8,
        decreases copy_len - i,
    {
        d[i] = data[i];
        i = i + 1;
    }
    assert(d@ =~= Seq::new(8, |j: int| if j < copy_len { data@[j] } else { 0u8 }));
    Message::CanFrame(CanFrameData::new(id, d, copy_len as u8))
}

} // verus!
