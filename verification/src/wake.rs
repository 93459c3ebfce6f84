//! The Wake-on-LAN magic packet.
//!
//! A network interface that listens for Wake-on-LAN powers its machine on when
//! it sees six bytes of `0xFF` followed by its own hardware address sixteen
//! times over. [`make_packet`] builds exactly that payload.

use vstd::prelude::*;

verus! {

/// Number of bytes in a hardware (MAC) address.
pub const MAC_LEN: usize = 6;

/// Number of `0xFF` bytes that open a magic packet.
pub const SYNC_LEN: usize = 6;

/// How often the hardware address is repeated after the synchronisation bytes.
pub const REPETITIONS: usize = 16;

/// Number of bytes in a magic packet: `SYNC_LEN + REPETITIONS * MAC_LEN`.
pub const PACKET_LEN: usize = 102;

/// The synchronisation stream: six bytes of `0xFF`.
pub open spec fn sync_stream() -> Seq<u8> {
    Seq::new(SYNC_LEN as nat, |i: int| 0xFFu8)
}

/// The magic packet that wakes the interface with the address `mac`: byte `i`
/// is `0xFF` in the synchronisation stream, and afterwards the byte of `mac`
/// that falls on `i` when `mac` is laid out again and again.
pub open spec fn magic_packet(mac: Seq<u8>) -> Seq<u8> {
    Seq::new(
        PACKET_LEN as nat,
        |i: int|
            if i < SYNC_LEN {
                0xFFu8
            } else {
                mac[(i - SYNC_LEN) % (MAC_LEN as int)]
            },
    )
}

/// The six bytes of `packet` that hold repetition `block` of the address.
pub open spec fn address_block(packet: Seq<u8>, block: int) -> Seq<u8> {
    packet.subrange(SYNC_LEN + MAC_LEN * block, SYNC_LEN + MAC_LEN * block + MAC_LEN)
}

/// A magic packet has 102 bytes, whatever the address.
pub proof fn lemma_packet_len(mac: Seq<u8>)
    ensures
        magic_packet(mac).len() == 102,
{
}

/// A magic packet opens with the synchronisation stream.
pub proof fn lemma_packet_sync(mac: Seq<u8>)
    ensures
        magic_packet(mac).subrange(0, 6) == sync_stream(),
        forall|i: int| 0 <= i < 6 ==> magic_packet(mac)[i] == 0xFF,
{
    assert(magic_packet(mac).subrange(0, 6) =~= sync_stream());
}

/// Each of the sixteen blocks behind the synchronisation stream is the address.
pub proof fn lemma_packet_block(mac: Seq<u8>, block: int)
    requires
        mac.len() == 6,
        0 <= block < 16,
    ensures
        address_block(magic_packet(mac), block) == mac,
{
    let found = address_block(magic_packet(mac), block);
    assert forall|j: int| 0 <= j < 6 implies found[j] == mac[j] by {
        assert((6 * block + j) % 6 == j) by (nonlinear_arith)
            requires
                0 <= j < 6,
                0 <= block,
        ;
    }
    assert(found =~= mac);
}

/// The address decides the packet: two packets that both are the magic
/// packet of `mac` agree in every byte.
pub proof fn lemma_packet_deterministic(mac: [u8; 6], first: [u8; 102], second: [u8; 102])
    requires
        first@ == magic_packet(mac@),
        second@ == magic_packet(mac@),
    ensures
        first == second,
{
    assert(first =~= second);
}

/// The packet decides the address: no two addresses share a magic packet.
pub proof fn lemma_packet_names_one_address(first: Seq<u8>, second: Seq<u8>)
    requires
        first.len() == 6,
        second.len() == 6,
        magic_packet(first) == magic_packet(second),
    ensures
        first == second,
{
    lemma_packet_block(first, 0);
    lemma_packet_block(second, 0);
}

/// Create a Wake-on-LAN magic packet from `mac_address`.
///
/// The result is the synchronisation stream followed by sixteen copies of the
/// address; it depends on the bytes of `mac_address` and on nothing else.
pub fn make_packet(mac_address: &[u8; 6]) -> (packet: [u8; 102])
    ensures
        packet@ == magic_packet(mac_address@),
        packet@.len() == 102,
        packet@.subrange(0, 6) == sync_stream(),
        forall|block: int|
            0 <= block < 16 ==> #[trigger] address_block(packet@, block) == mac_address@,
{
    let mut packet = [0xFFu8;102];
    let mut block: usize = 0;
    while block < REPETITIONS
        invariant
            block <= REPETITIONS,
            forall|i: int| 0 <= i < SYNC_LEN + MAC_LEN * block ==> packet@[i] == magic_packet(mac_address@)[i],
            forall|i: int| SYNC_LEN + MAC_LEN * block <= i < PACKET_LEN ==> packet@[i] == 0xFF,
        decreases REPETITIONS - block,
    {
        let start: usize = SYNC_LEN + MAC_LEN * block;
        let mut offset: usize = 0;
        while offset < MAC_LEN
            invariant
                block < REPETITIONS,
                offset <= MAC_LEN,
                start == SYNC_LEN + MAC_LEN * block,
                forall|i: int| 0 <= i < start + offset ==> packet@[i] == magic_packet(mac_address@)[i],
                forall|i: int| start + offset <= i < PACKET_LEN ==> packet@[i] == 0xFF,
            decreases MAC_LEN - offset,
        {
            assert((MAC_LEN * block + offset) % (MAC_LEN as int) == offset) by (nonlinear_arith)
                requires
                    0 <= offset < MAC_LEN,
                    0 <= block,
                    MAC_LEN == 6,
            ;
            packet[start + offset] = mac_address[offset];
            offset += 1;
        }
        block += 1;
    }
    proof {
        assert(packet@ =~= magic_packet(mac_address@));
        lemma_packet_sync(mac_address@);
        assert forall|b: int| 0 <= b < 16 implies #[trigger] address_block(packet@, b)
            == mac_address@ by {
            lemma_packet_block(mac_address@, b);
        }
    }
    packet
}

} // verus!
