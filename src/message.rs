use vstd::prelude::*;

verus! {

/// The value of every payload byte after the first.
pub const FILLER: u8 = 1;

/// The sequence marker carried by the first byte of the message with this index.
pub open spec fn marker(index: nat) -> u8 {
    (index % 255) as u8
}

/// The payload of the message with the given index: `size` bytes, the first
/// one the index's marker and all the others the filler.
pub open spec fn payload_spec(index: nat, size: nat) -> Seq<u8> {
    Seq::new(size, |j: int| if j == 0 { marker(index) } else { FILLER })
}

/// Builds the payload of the message with the given index.
pub fn message_payload(index: usize, size: usize) -> (r: Vec<u8>)
    ensures
        r@ == payload_spec(index as nat, size as nat),
{
    let first: u8 = (index % 255) as u8;
    let mut payload: Vec<u8> = Vec::with_capacity(size);
    let mut j: usize = 0;
    while j < size
        invariant
            j <= size,
            first == marker(index as nat),
            payload@ =~= payload_spec(index as nat, size as nat).take(j as int),
        decreases size - j,
    {
        if j == 0 {
            payload.push(first);
        } else {
            payload.push(FILLER);
        }
        j = j + 1;
    }
    assert(payload@ =~= payload_spec(index as nat, size as nat));
    payload
}

/// Every message has the configured length; its first byte is its index
/// modulo 255 and every other byte is the filler.
pub proof fn lemma_payload_shape(index: nat, size: nat)
    ensures
        payload_spec(index, size).len() == size,
        size >= 1 ==> payload_spec(index, size)[0] == (index % 255) as u8,
        forall|j: int| 1 <= j < size ==> #[trigger] payload_spec(index, size)[j] == FILLER,
{
}

} // verus!
