//! Behavioural tests for the packet core: the transmission-mode flag
//! table, the reliability and sequencing queries, and the packet
//! lifecycle against the engine ledger.

use enet::packet::{
    Engine, Packet, PacketMode, FLAG_NO_ALLOCATE, FLAG_RELIABLE, FLAG_UNRELIABLE_FRAGMENT,
    FLAG_UNSEQUENCED,
};
use enet::Error;

#[test]
fn wire_flags_match_transport_table() {
    assert_eq!(PacketMode::UnreliableSequenced.to_sys_flags(), 0);
    assert_eq!(
        PacketMode::UnreliableUnsequenced.to_sys_flags(),
        FLAG_UNSEQUENCED
    );
    assert_eq!(
        PacketMode::UnreliableUnsequencedUnreliablyFragmented.to_sys_flags(),
        FLAG_UNSEQUENCED | FLAG_UNRELIABLE_FRAGMENT
    );
    assert_eq!(PacketMode::ReliableSequenced.to_sys_flags(), FLAG_RELIABLE);
    // The transport's ABI values: four independent bits.
    assert_eq!(FLAG_RELIABLE, 1);
    assert_eq!(FLAG_UNSEQUENCED, 2);
    assert_eq!(FLAG_NO_ALLOCATE, 4);
    assert_eq!(FLAG_UNRELIABLE_FRAGMENT, 8);
}

#[test]
fn no_mode_aliases_another_encoding() {
    let modes = [
        PacketMode::UnreliableSequenced,
        PacketMode::UnreliableUnsequenced,
        PacketMode::UnreliableUnsequencedUnreliablyFragmented,
        PacketMode::ReliableSequenced,
    ];
    for i in 0..modes.len() {
        for j in 0..modes.len() {
            if i != j {
                assert_ne!(modes[i].to_sys_flags(), modes[j].to_sys_flags());
            }
        }
    }
}

#[test]
fn wire_flag_bits_decompose_exactly() {
    let modes = [
        PacketMode::UnreliableSequenced,
        PacketMode::UnreliableUnsequenced,
        PacketMode::UnreliableUnsequencedUnreliablyFragmented,
        PacketMode::ReliableSequenced,
    ];
    for mode in modes {
        let w = mode.to_sys_flags();
        assert_eq!(w & FLAG_RELIABLE != 0, mode.is_reliable());
        assert_eq!(w & FLAG_UNSEQUENCED != 0, !mode.is_sequenced());
        assert_eq!(
            w & FLAG_UNRELIABLE_FRAGMENT != 0,
            mode == PacketMode::UnreliableUnsequencedUnreliablyFragmented
        );
        assert_eq!(w & FLAG_NO_ALLOCATE, 0);
    }
}

#[test]
fn reliability_and_sequencing_queries() {
    assert!(!PacketMode::UnreliableSequenced.is_reliable());
    assert!(!PacketMode::UnreliableUnsequenced.is_reliable());
    assert!(!PacketMode::UnreliableUnsequencedUnreliablyFragmented.is_reliable());
    assert!(PacketMode::ReliableSequenced.is_reliable());

    assert!(PacketMode::UnreliableSequenced.is_sequenced());
    assert!(!PacketMode::UnreliableUnsequenced.is_sequenced());
    assert!(!PacketMode::UnreliableUnsequencedUnreliablyFragmented.is_sequenced());
    assert!(PacketMode::ReliableSequenced.is_sequenced());
}

#[test]
fn round_trip_preserves_bytes() {
    let mut engine = Engine::new();

    let packet = Packet::new(vec![1, 2, 3], PacketMode::UnreliableSequenced, &mut engine)
        .expect("allocation was not told to fail");
    assert_eq!(packet.data(), &[1, 2, 3]);
    packet.release(&mut engine);

    let packet = Packet::new(Vec::new(), PacketMode::UnreliableUnsequenced, &mut engine)
        .expect("allocation was not told to fail");
    assert_eq!(packet.data(), &[] as &[u8]);
    packet.release(&mut engine);

    let bytes: Vec<u8> = (0..=255).collect();
    let packet = Packet::new(bytes.clone(), PacketMode::ReliableSequenced, &mut engine)
        .expect("allocation was not told to fail");
    assert_eq!(packet.data(), bytes.as_slice());
    packet.release(&mut engine);
}

#[test]
fn ten_thousand_packets_balance_the_ledger() {
    let mut engine = Engine::new();
    for i in 0..10_000u32 {
        let bytes = i.to_le_bytes().to_vec();
        let packet = Packet::new(bytes, PacketMode::ReliableSequenced, &mut engine)
            .expect("allocation was not told to fail");
        assert_eq!(packet.data(), i.to_le_bytes().as_slice());
        packet.release(&mut engine);
    }
    assert_eq!(engine.buffers_taken, 10_000);
    assert_eq!(engine.buffers_freed, 10_000);
    assert_eq!(engine.records_created, 10_000);
    assert_eq!(engine.records_destroyed, 10_000);
}

#[test]
fn release_discipline_balances_for_any_round_count() {
    let engine = enet::packet::exercise_release_discipline(10_000);
    assert_eq!(engine.records_created, 10_000);
    assert_eq!(engine.records_destroyed, 10_000);
    assert_eq!(engine.buffers_taken, 10_000);
    assert_eq!(engine.buffers_freed, 10_000);

    let engine = enet::packet::exercise_release_discipline(0);
    assert_eq!(engine.buffers_taken, 0);
    assert_eq!(engine.buffers_freed, 0);
}

#[test]
fn failed_construction_takes_nothing() {
    let mut engine = Engine::new();
    engine.fail_next_alloc = true;
    let result = Packet::new(vec![9, 9, 9], PacketMode::ReliableSequenced, &mut engine);
    assert_eq!(result.err(), Some(Error::AllocationFailed));
    // Nothing was transferred and no release callback was registered:
    // the ledger shows no buffer taken and nothing that could ever fire.
    assert_eq!(engine.records_created, 0);
    assert_eq!(engine.buffers_taken, 0);
    assert_eq!(engine.buffers_freed, 0);
    assert!(!engine.fail_next_alloc);

    // The failure is not sticky: the next construction succeeds.
    let packet = Packet::new(vec![9, 9, 9], PacketMode::ReliableSequenced, &mut engine)
        .expect("the failure knob has cleared");
    assert_eq!(packet.data(), &[9, 9, 9]);
    packet.release(&mut engine);
    assert_eq!(engine.buffers_taken, engine.buffers_freed);
}

#[test]
fn transfer_then_destroy_fires_callback_once() {
    let mut engine = Engine::new();
    let packet = Packet::new(vec![4, 5], PacketMode::UnreliableUnsequenced, &mut engine)
        .expect("allocation was not told to fail");
    let raw = packet.into_inner();
    // Relinquishing management freed nothing.
    assert_eq!(engine.buffers_freed, 0);
    assert_eq!(engine.records_destroyed, 0);
    // The engine destroys the handle exactly once: the callback fires
    // exactly once.  (A second destroy cannot even be written: the
    // handle is consumed.)
    engine.destroy_raw(raw);
    assert_eq!(engine.buffers_freed, 1);
    assert_eq!(engine.records_destroyed, 1);
}

#[test]
fn wrapped_incoming_packet_reads_and_releases_without_callback() {
    let mut engine = Engine::new();
    let raw = engine.incoming(vec![7, 8, 9], FLAG_RELIABLE);
    let packet = Packet::from_sys_packet(raw);
    assert_eq!(packet.data(), &[7, 8, 9]);
    assert_eq!(packet.flags(), FLAG_RELIABLE);
    packet.release(&mut engine);
    // The engine's own free path ran: no caller-storage callback fired.
    assert_eq!(engine.records_destroyed, 1);
    assert_eq!(engine.buffers_taken, 0);
    assert_eq!(engine.buffers_freed, 0);
}

#[test]
fn empty_reliable_packet() {
    let mut engine = Engine::new();
    let packet = Packet::new(Vec::new(), PacketMode::ReliableSequenced, &mut engine)
        .expect("allocation was not told to fail");
    assert_eq!(packet.data().len(), 0);
    assert!(PacketMode::ReliableSequenced.is_reliable());
    packet.release(&mut engine);
}

#[test]
fn fragmented_packet_flag_bits() {
    let mut engine = Engine::new();
    let packet = Packet::new(
        vec![1, 2, 3],
        PacketMode::UnreliableUnsequencedUnreliablyFragmented,
        &mut engine,
    )
    .expect("allocation was not told to fail");
    let flags = packet.flags();
    assert_ne!(flags & FLAG_UNSEQUENCED, 0);
    assert_ne!(flags & FLAG_UNRELIABLE_FRAGMENT, 0);
    assert_ne!(flags & FLAG_NO_ALLOCATE, 0);
    assert_eq!(flags & FLAG_RELIABLE, 0);
    packet.release(&mut engine);
}
