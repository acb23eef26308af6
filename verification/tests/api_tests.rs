use filecoin_proofs::api::{get_unsealed, get_unsealed_range, seal, verify_seal};
use filecoin_proofs::engine::ProvingEngine;
use filecoin_proofs::error::{BoundaryError, CollaboratorError};
use filecoin_proofs::responses::ResponseStatus;
use filecoin_proofs::store::{ConfiguredStore, SectorStore};
use filecoin_proofs::types::{ProverId, SectorId};

fn create_storage(cs: ConfiguredStore) -> (SectorStore, ProvingEngine) {
    (SectorStore::new(cs), ProvingEngine::new())
}

fn make_data(num_bytes: usize) -> Vec<u8> {
    (0..num_bytes).map(|i| (i % 251) as u8).collect()
}

fn make_data_for_storage(store: &SectorStore, space_for_padding: usize) -> Vec<u8> {
    let max = store.max_unsealed_bytes_per_sector() as usize;
    make_data(max - space_for_padding)
}

fn seal_verify_aux(cs: ConfiguredStore, byte_padding_amount: usize) {
    let (mut store, mut engine) = create_storage(cs);

    let seal_input = store.new_sector_access();
    let seal_output = store.new_sector_access();

    let prover_id = ProverId { bytes: [2; 31] };
    let sector_id = SectorId { bytes: [0; 31] };

    let contents = make_data_for_storage(&store, byte_padding_amount);

    let written = store.write_and_preprocess(seal_input, &contents);
    assert_eq!(written, Ok(contents.len() as u64), "staging write failed for {:?}", cs);

    let seal_res = seal(&mut store, &mut engine, seal_input, seal_output, &prover_id, &sector_id);
    assert_eq!(ResponseStatus::Success, seal_res.status, "seal failed for {:?}", cs);

    let verify_res = verify_seal(
        &engine,
        &seal_res.comm_r,
        &seal_res.comm_d,
        &prover_id,
        &sector_id,
        &seal_res.proof,
    );
    assert_eq!(ResponseStatus::Success, verify_res.status, "verification failed for {:?}", cs);
    assert!(verify_res.is_valid, "verification reported an invalid seal for {:?}", cs);
}

fn seal_unsealed_roundtrip_aux(cs: ConfiguredStore, byte_padding_amount: usize) {
    let (mut store, mut engine) = create_storage(cs);

    let seal_input = store.new_sector_access();
    let unsealed_output = store.new_sector_access();
    let seal_output = store.new_sector_access();

    let prover_id = ProverId { bytes: [2; 31] };
    let sector_id = SectorId { bytes: [0; 31] };

    let contents = make_data_for_storage(&store, byte_padding_amount);

    let written = store.write_and_preprocess(seal_input, &contents);
    assert_eq!(written, Ok(contents.len() as u64), "staging write failed for {:?}", cs);

    let seal_res = seal(&mut store, &mut engine, seal_input, seal_output, &prover_id, &sector_id);
    assert_eq!(ResponseStatus::Success, seal_res.status, "seal failed for {:?}", cs);

    let unseal_res = get_unsealed(
        &mut store,
        &engine,
        seal_output,
        unsealed_output,
        &prover_id,
        &sector_id,
    );
    assert_eq!(ResponseStatus::Success, unseal_res.status, "get_unsealed failed for {:?}", cs);

    let sector_bytes = store.max_unsealed_bytes_per_sector();
    let buf = store
        .read_raw(unsealed_output, 0, sector_bytes)
        .expect("reading the unsealed output failed");

    // a raw read of an inner range sees the same bytes
    let inner = store
        .read_raw(unsealed_output, 1, sector_bytes - 2)
        .expect("inner raw read failed");
    assert_eq!(&buf[1..buf.len() - 1], &inner[..]);

    assert_eq!(
        contents.len(),
        buf.len() - byte_padding_amount,
        "length of original and unsealed contents differed for {:?}",
        cs
    );
    assert_eq!(
        contents[..],
        buf[0..contents.len()],
        "original and unsealed contents differed for {:?}",
        cs
    );
    for &b in &buf[contents.len()..] {
        assert_eq!(0, b, "padding after the original contents was not zero for {:?}", cs);
    }
}

fn seal_unsealed_range_roundtrip_aux(cs: ConfiguredStore, byte_padding_amount: usize) {
    let (mut store, mut engine) = create_storage(cs);

    let seal_input = store.new_sector_access();
    let range_output = store.new_sector_access();
    let seal_output = store.new_sector_access();

    let prover_id = ProverId { bytes: [2; 31] };
    let sector_id = SectorId { bytes: [0; 31] };

    let contents = make_data_for_storage(&store, byte_padding_amount);

    let written = store.write_and_preprocess(seal_input, &contents);
    assert_eq!(written, Ok(contents.len() as u64), "staging write failed for {:?}", cs);

    let seal_res = seal(&mut store, &mut engine, seal_input, seal_output, &prover_id, &sector_id);
    assert_eq!(ResponseStatus::Success, seal_res.status, "seal failed for {:?}", cs);

    let offset = 5u64;
    let range_length = contents.len() as u64 - offset;
    let range_res = get_unsealed_range(
        &mut store,
        &engine,
        seal_output,
        range_output,
        &prover_id,
        &sector_id,
        offset,
        range_length,
    );
    assert_eq!(ResponseStatus::Success, range_res.status, "ranged unseal failed for {:?}", cs);
    assert_eq!(
        range_length, range_res.num_bytes_written,
        "expected range length {}; got {} for {:?}",
        range_length, range_res.num_bytes_written, cs
    );

    let buf = store
        .read_raw(range_output, 0, range_length)
        .expect("reading the range output failed");
    assert_eq!(
        contents[(offset as usize)..],
        buf[0..(range_length as usize)],
        "original and unsealed range contents differed for {:?}",
        cs
    );
}

#[test]
fn seal_verify_test() {
    seal_verify_aux(ConfiguredStore::Test, 0);
    seal_verify_aux(ConfiguredStore::Test, 5);
}

#[test]
fn seal_verify_proof_test() {
    seal_verify_aux(ConfiguredStore::ProofTest, 0);
    seal_verify_aux(ConfiguredStore::ProofTest, 5);
}

#[test]
fn seal_unsealed_roundtrip_test() {
    seal_unsealed_roundtrip_aux(ConfiguredStore::Test, 0);
    seal_unsealed_roundtrip_aux(ConfiguredStore::Test, 5);
}

#[test]
fn seal_unsealed_roundtrip_proof_test() {
    seal_unsealed_roundtrip_aux(ConfiguredStore::ProofTest, 0);
    seal_unsealed_roundtrip_aux(ConfiguredStore::ProofTest, 5);
}

#[test]
fn seal_unsealed_range_roundtrip_test() {
    seal_unsealed_range_roundtrip_aux(ConfiguredStore::Test, 0);
    seal_unsealed_range_roundtrip_aux(ConfiguredStore::Test, 5);
}

#[test]
fn seal_unsealed_range_roundtrip_proof_test() {
    seal_unsealed_range_roundtrip_aux(ConfiguredStore::ProofTest, 0);
    seal_unsealed_range_roundtrip_aux(ConfiguredStore::ProofTest, 5);
}

// Calls against independent stores may come from independent threads of
// control with no ordering between them; no state is shared between the
// stores, so interleaving whole roundtrips must give each one the same
// result as running it alone.
#[test]
fn interleaved_independent_range_roundtrips_test() {
    let count = 5;
    let mut worlds: Vec<(SectorStore, ProvingEngine, usize, usize, usize)> = (0..count)
        .map(|_| {
            let (mut store, engine) = create_storage(ConfiguredStore::ProofTest);
            let seal_input = store.new_sector_access();
            let range_output = store.new_sector_access();
            let seal_output = store.new_sector_access();
            (store, engine, seal_input, range_output, seal_output)
        })
        .collect();

    let prover_id = ProverId { bytes: [2; 31] };
    let sector_id = SectorId { bytes: [0; 31] };
    let contents = make_data(127);

    for w in worlds.iter_mut() {
        let written = w.0.write_and_preprocess(w.2, &contents);
        assert_eq!(written, Ok(contents.len() as u64));
    }
    for w in worlds.iter_mut() {
        let seal_res = seal(&mut w.0, &mut w.1, w.2, w.4, &prover_id, &sector_id);
        assert_eq!(ResponseStatus::Success, seal_res.status);
    }
    for w in worlds.iter_mut() {
        let offset = 5u64;
        let range_length = contents.len() as u64 - offset;
        let range_res = get_unsealed_range(
            &mut w.0,
            &w.1,
            w.4,
            w.3,
            &prover_id,
            &sector_id,
            offset,
            range_length,
        );
        assert_eq!(ResponseStatus::Success, range_res.status);
        assert_eq!(range_length, range_res.num_bytes_written);
        let buf = w.0.read_raw(w.3, 0, range_length).expect("reading the range output failed");
        assert_eq!(contents[5..], buf[..]);
    }
}

#[test]
fn write_and_preprocess_overwrites_unaligned_last_bytes() {
    let (mut store, mut engine) = create_storage(ConfiguredStore::ProofTest);

    let seal_input = store.new_sector_access();
    let unsealed_output = store.new_sector_access();
    let seal_output = store.new_sector_access();

    let prover_id = ProverId { bytes: [2; 31] };
    let sector_id = SectorId { bytes: [0; 31] };

    // Write 32 bytes, then 95 bytes; the two writes sum to the exact
    // configured sector size of 127 bytes, and the second write lands on
    // a boundary that is not a multiple of 32. Neither write may corrupt
    // the bytes of the other.
    let contents_a = vec![255u8; 32];
    let contents_b = vec![255u8; 95];

    let written_a = store.write_and_preprocess(seal_input, &contents_a);
    assert_eq!(written_a, Ok(contents_a.len() as u64), "unexpected number of bytes written");

    let written_b = store.write_and_preprocess(seal_input, &contents_b);
    assert_eq!(written_b, Ok(contents_b.len() as u64), "unexpected number of bytes written");

    let seal_res = seal(&mut store, &mut engine, seal_input, seal_output, &prover_id, &sector_id);
    assert_eq!(ResponseStatus::Success, seal_res.status, "seal failed");

    let unseal_res = get_unsealed(
        &mut store,
        &engine,
        seal_output,
        unsealed_output,
        &prover_id,
        &sector_id,
    );
    assert_eq!(ResponseStatus::Success, unseal_res.status, "get_unsealed failed");

    let buf = store.read_raw(unsealed_output, 0, 127).expect("reading the unsealed output failed");
    assert_eq!(
        contents_a.len() + contents_b.len(),
        buf.len(),
        "length of original and unsealed contents differed"
    );
    assert_eq!(contents_a[..], buf[0..contents_a.len()]);
    assert_eq!(contents_b[..], buf[contents_a.len()..contents_a.len() + contents_b.len()]);
}

#[test]
fn unseal_range_past_end_is_receiver_error() {
    let (mut store, mut engine) = create_storage(ConfiguredStore::ProofTest);

    let seal_input = store.new_sector_access();
    let range_output = store.new_sector_access();
    let seal_output = store.new_sector_access();

    let prover_id = ProverId { bytes: [2; 31] };
    let sector_id = SectorId { bytes: [0; 31] };

    let contents = make_data(127);
    let written = store.write_and_preprocess(seal_input, &contents);
    assert_eq!(written, Ok(127));

    let seal_res = seal(&mut store, &mut engine, seal_input, seal_output, &prover_id, &sector_id);
    assert_eq!(ResponseStatus::Success, seal_res.status);

    // 100 bytes starting at offset 50 exceed the 127 available: the
    // operation succeeds but reports the shorter actual count.
    let range_res = get_unsealed_range(
        &mut store,
        &engine,
        seal_output,
        range_output,
        &prover_id,
        &sector_id,
        50,
        100,
    );
    assert_eq!(ResponseStatus::ReceiverError, range_res.status);
    assert_eq!(77, range_res.num_bytes_written);
    assert_eq!(
        Some(BoundaryError::PartialUnseal { requested: 100, unsealed: 77 }),
        range_res.error
    );
}

#[test]
fn seal_with_unknown_access_is_unclassified_error() {
    let (mut store, mut engine) = create_storage(ConfiguredStore::ProofTest);
    let prover_id = ProverId { bytes: [2; 31] };
    let sector_id = SectorId { bytes: [0; 31] };

    let seal_res = seal(&mut store, &mut engine, 0, 1, &prover_id, &sector_id);
    assert_eq!(ResponseStatus::UnclassifiedError, seal_res.status);
    assert_eq!(
        Some(BoundaryError::Collaborator(CollaboratorError::UnknownSectorAccess)),
        seal_res.error
    );
}

#[test]
fn verify_seal_rejects_foreign_outputs() {
    let (mut store, mut engine) = create_storage(ConfiguredStore::ProofTest);

    let seal_input = store.new_sector_access();
    let seal_output = store.new_sector_access();
    let prover_id = ProverId { bytes: [2; 31] };
    let sector_id = SectorId { bytes: [0; 31] };

    let contents = make_data(100);
    let written = store.write_and_preprocess(seal_input, &contents);
    assert_eq!(written, Ok(100));

    let seal_res = seal(&mut store, &mut engine, seal_input, seal_output, &prover_id, &sector_id);
    assert_eq!(ResponseStatus::Success, seal_res.status);

    // the right proof under the wrong prover identity is cleanly invalid
    let other_prover = ProverId { bytes: [9; 31] };
    let verify_res = verify_seal(
        &engine,
        &seal_res.comm_r,
        &seal_res.comm_d,
        &other_prover,
        &sector_id,
        &seal_res.proof,
    );
    assert_eq!(ResponseStatus::Success, verify_res.status);
    assert!(!verify_res.is_valid);

    // swapping the two commitments is cleanly invalid as well
    let verify_res = verify_seal(
        &engine,
        &seal_res.comm_d,
        &seal_res.comm_r,
        &prover_id,
        &sector_id,
        &seal_res.proof,
    );
    assert_eq!(ResponseStatus::Success, verify_res.status);
    assert!(!verify_res.is_valid);
}

#[test]
fn staging_write_past_sector_size_is_refused() {
    let (mut store, _engine) = create_storage(ConfiguredStore::ProofTest);
    let seal_input = store.new_sector_access();

    let contents = make_data(128);
    let written = store.write_and_preprocess(seal_input, &contents);
    assert_eq!(written, Err(CollaboratorError::SectorSizeExceeded));

    let missing = store.write_and_preprocess(99, &make_data(1));
    assert_eq!(missing, Err(CollaboratorError::UnknownSectorAccess));
}
