use chui::erasure::{ErasureConfig, ErasureError, Session};

#[test]
fn test_coding() {
    const N_DATA: usize = 4;
    const N_CODING: usize = 2;

    let session = Session::new(N_DATA, N_CODING).unwrap();

    let mut vs: Vec<Vec<u8>> = (0..N_DATA as u8).map(|i| (i..(16 + i)).collect()).collect();
    let v_orig: Vec<u8> = vs[0].clone();

    let mut coding_blocks: Vec<Vec<u8>> = (0..N_CODING).map(|_| vec![0u8; 16]).collect();

    session
        .encode(vs.as_slice(), &mut coding_blocks)
        .expect("encoding must succeed");

    for b in &coding_blocks {
        println!("test_coding: {:?}", b);
    }

    let erasure: usize = 1;
    let mut present = vec![true; N_DATA + N_CODING];
    present[erasure] = false;
    let erased = vs[erasure].clone();

    // clear an entry
    vs[erasure as usize].copy_from_slice(&[0; 16]);

    let mut blocks: Vec<(Vec<u8>, bool)> = vs
        .iter()
        .cloned()
        .chain(coding_blocks.iter().cloned())
        .zip(present)
        .collect();

    session
        .decode_blocks(&mut blocks)
        .expect("decoding must succeed");

    for (v, (block, _)) in vs.iter_mut().zip(blocks.iter()) {
        *v = block.clone();
    }
    for v in &vs {
        println!("test_coding: {:?}", v);
    }
    assert_eq!(v_orig, vs[0]);
    assert_eq!(erased, vs[erasure]);
}

fn sample_data() -> Vec<Vec<u8>> {
    (0..4u8).map(|i| (0..8u8).map(|j| i * 31 + j * 7).collect()).collect()
}

#[test]
fn session_new_rejects_bad_counts() {
    assert_eq!(Session::new(0, 2).err(), Some(ErasureError::TooFewDataShards));
    assert_eq!(Session::new(4, 0).err(), Some(ErasureError::TooFewParityShards));
    assert_eq!(Session::new(0, 0).err(), Some(ErasureError::TooFewDataShards));
    assert_eq!(Session::new(200, 57).err(), Some(ErasureError::TooManyShards));
    assert!(Session::new(200, 56).is_ok());
}

#[test]
fn erasure_config_accessors_and_session() {
    let config = ErasureConfig::new(16, 4);
    assert_eq!(config.num_data(), 16);
    assert_eq!(config.num_coding(), 4);
    assert!(Session::new_from_config(&config).is_ok());
    let bad = ErasureConfig::new(16, 0);
    assert_eq!(Session::new_from_config(&bad).err(), Some(ErasureError::TooFewParityShards));
}

#[test]
fn encode_checks_shapes() {
    let session = Session::new(4, 2).unwrap();
    let data = sample_data();
    let mut parity = vec![vec![0u8; 8]; 2];

    assert_eq!(session.encode(&data[..3], &mut parity), Err(ErasureError::TooFewDataShards));
    let mut five = data.clone();
    five.push(vec![0u8; 8]);
    assert_eq!(session.encode(&five, &mut parity), Err(ErasureError::TooManyDataShards));
    let mut one = vec![vec![0u8; 8]; 1];
    assert_eq!(session.encode(&data, &mut one), Err(ErasureError::TooFewParityShards));
    let mut three = vec![vec![0u8; 8]; 3];
    assert_eq!(session.encode(&data, &mut three), Err(ErasureError::TooManyParityShards));

    let empty = vec![Vec::new(); 4];
    assert_eq!(session.encode(&empty, &mut parity), Err(ErasureError::EmptyShard));
    let mut ragged = data.clone();
    ragged[2].push(1);
    assert_eq!(session.encode(&ragged, &mut parity), Err(ErasureError::IncorrectShardSize));
    let mut short_parity = vec![vec![0u8; 4]; 2];
    assert_eq!(session.encode(&data, &mut short_parity), Err(ErasureError::IncorrectShardSize));
    assert_eq!(short_parity, vec![vec![0u8; 4]; 2]);

    assert_eq!(session.encode(&data, &mut parity), Ok(()));
    // parity depends on the data: it is not left as it was
    assert_ne!(parity, vec![vec![0u8; 8]; 2]);
}

#[test]
fn decode_restores_any_two_erased_data_shards() {
    let session = Session::new(4, 2).unwrap();
    let data = sample_data();
    let mut parity = vec![vec![0u8; 8]; 2];
    session.encode(&data, &mut parity).unwrap();
    for a in 0..4 {
        for b in (a + 1)..6 {
            let mut blocks: Vec<(Vec<u8>, bool)> = data
                .iter()
                .cloned()
                .chain(parity.iter().cloned())
                .map(|s| (s, true))
                .collect();
            for &k in &[a, b] {
                blocks[k] = (vec![0xEE; 8], false);
            }
            session.decode_blocks(&mut blocks).unwrap();
            for i in 0..4 {
                assert_eq!(blocks[i].0, data[i]);
            }
            assert!(!blocks[a].1);
            assert!(!blocks[b].1);
        }
    }
}

#[test]
fn decode_reports_errors_and_leaves_blocks() {
    let session = Session::new(4, 2).unwrap();
    let data = sample_data();
    let mut parity = vec![vec![0u8; 8]; 2];
    session.encode(&data, &mut parity).unwrap();
    let full: Vec<(Vec<u8>, bool)> = data
        .iter()
        .cloned()
        .chain(parity.iter().cloned())
        .map(|s| (s, true))
        .collect();

    let mut three_missing = full.clone();
    for k in 0..3 {
        three_missing[k].1 = false;
    }
    let before = three_missing.clone();
    assert_eq!(session.decode_blocks(&mut three_missing), Err(ErasureError::TooFewShardsPresent));
    assert_eq!(three_missing, before);

    let mut too_few = full[..5].to_vec();
    assert_eq!(session.decode_blocks(&mut too_few), Err(ErasureError::TooFewShards));
    let mut too_many = full.clone();
    too_many.push((vec![0; 8], true));
    assert_eq!(session.decode_blocks(&mut too_many), Err(ErasureError::TooManyShards));

    let mut empty = full.clone();
    empty[3] = (Vec::new(), true);
    assert_eq!(session.decode_blocks(&mut empty), Err(ErasureError::EmptyShard));
    let mut ragged = full.clone();
    ragged[4].0.push(9);
    assert_eq!(session.decode_blocks(&mut ragged), Err(ErasureError::IncorrectShardSize));
    let mut misfit = full.clone();
    misfit[0] = (vec![0; 3], false);
    assert_eq!(session.decode_blocks(&mut misfit), Err(ErasureError::IncorrectShardSize));

    let mut all_present = full.clone();
    assert_eq!(session.decode_blocks(&mut all_present), Ok(()));
    assert_eq!(all_present, full);

    // a missing coding shard is not rebuilt by data decoding
    let mut parity_missing = full.clone();
    parity_missing[5] = (vec![1; 8], false);
    assert_eq!(session.decode_blocks(&mut parity_missing), Ok(()));
    assert_eq!(parity_missing[5], (vec![1; 8], false));
}

#[test]
fn cloned_session_codes_alike() {
    let session = Session::new(4, 2).unwrap();
    let copy = session.clone();
    let data = sample_data();
    let mut parity = vec![vec![0u8; 8]; 2];
    let mut parity_copy = vec![vec![0u8; 8]; 2];
    session.encode(&data, &mut parity).unwrap();
    copy.encode(&data, &mut parity_copy).unwrap();
    assert_eq!(parity, parity_copy);
    assert_eq!(copy.encode(&data[..3], &mut parity_copy), Err(ErasureError::TooFewDataShards));
}
