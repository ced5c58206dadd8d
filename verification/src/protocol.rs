//! Wire-level constants of the benchmark protocol: the protocol identifier
//! exchanged during connection negotiation and the fixed acknowledgment that
//! closes a measurement window.

use vstd::prelude::*;

verus! {

/// The protocol identifier, the ASCII bytes of `iroh-example/print/0`.
/// Both peers must present this exact byte string when negotiating a
/// connection; the transport rejects a connection whose identifiers disagree.
pub open spec fn protocol_id_spec() -> Seq<u8> {
    seq![
        105u8, 114u8, 111u8, 104u8, 45u8, 101u8, 120u8, 97u8, 109u8, 112u8,
        108u8, 101u8, 47u8, 112u8, 114u8, 105u8, 110u8, 116u8, 47u8, 48u8,
    ]
}

/// The acknowledgment payload, the 8 ASCII bytes of `received`. Its exact
/// length and content are part of the wire contract.
pub open spec fn ack_spec() -> Seq<u8> {
    seq![114u8, 101u8, 99u8, 101u8, 105u8, 118u8, 101u8, 100u8]
}

/// The acknowledgment is exactly 8 bytes long.
pub proof fn lemma_ack_len()
    ensures
        ack_spec().len() == 8,
{
}

/// The protocol identifier as a byte vector, for handing to the transport.
pub fn protocol_id() -> (r: Vec<u8>)
    ensures
        r@ == protocol_id_spec(),
{
    let mut v: Vec<u8> = Vec::new();
    v.push(105);
    v.push(114);
    v.push(111);
    v.push(104);
    v.push(45);
    v.push(101);
    v.push(120);
    v.push(97);
    v.push(109);
    v.push(112);
    v.push(108);
    v.push(101);
    v.push(47);
    v.push(112);
    v.push(114);
    v.push(105);
    v.push(110);
    v.push(116);
    v.push(47);
    v.push(48);
    proof {
        assert(v@ =~= protocol_id_spec());
    }
    v
}

/// The acknowledgment payload as a byte vector, for writing to a stream.
pub fn ack_payload() -> (r: Vec<u8>)
    ensures
        r@ == ack_spec(),
{
    let mut v: Vec<u8> = Vec::new();
    v.push(114);
    v.push(101);
    v.push(99);
    v.push(101);
    v.push(105);
    v.push(118);
    v.push(101);
    v.push(100);
    proof {
        assert(v@ =~= ack_spec());
    }
    v
}

/// Byte-for-byte equality of two byte vectors.
pub fn bytes_eq(a: &Vec<u8>, b: &Vec<u8>) -> (r: bool)
    ensures
        r == (a@ == b@),
{
    if a.len() != b.len() {
        return false;
    }
    let mut i: usize = 0;
    while i < a.len()
        invariant
            a@.len() == b@.len(),
            i <= a@.len(),
            forall|j: int| 0 <= j < i ==> a@[j] == b@[j],
        decreases a@.len() - i,
    {
        if a[i] != b[i] {
            return false;
        }
        i += 1;
    }
    proof {
        assert(a@ =~= b@);
    }
    true
}

/// Whether a received acknowledgment is the expected one: true exactly when
/// the bytes equal `received`.
pub fn ack_valid(data: &Vec<u8>) -> (r: bool)
    ensures
        r == (data@ == ack_spec()),
{
    let expected = ack_payload();
    bytes_eq(data, &expected)
}

/// The negotiation rule: a connection is usable exactly when both peers
/// presented identical protocol identifiers. Connections that fail this
/// test never carry a stream, so no transfer can occur over them.
pub fn negotiation_accepts(client_id: &Vec<u8>, server_id: &Vec<u8>) -> (r: bool)
    ensures
        r == (client_id@ == server_id@),
{
    bytes_eq(client_id, server_id)
}

} // verus!
