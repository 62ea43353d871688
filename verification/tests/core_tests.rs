use why2::auth::AuthenticatedData;
use why2::consts::{DEFAULT_GRID_HEIGHT, DEFAULT_GRID_WIDTH, ROUND_KEYS};
use why2::crypto::{apply_ctr, generate_key, generate_nonce, generate_round_keys};
use why2::decrypter::{decrypt, decrypt_string};
use why2::encrypter::{encrypt, encrypt_string};
use why2::gf::{is_involutory, xtime};
use why2::grid::{subcell_cell, Grid, GridError};
use why2::stream::RexStream;
use why2::types::EncryptedData;

fn sample_key() -> Vec<i64> {
    (0..128i64).map(|i| i.wrapping_mul(0x9E37_79B9_7F4A_7C15u64 as i64) ^ 0x55).collect()
}

#[test]
fn grid_new_is_zero_and_rejects_bad_shapes() {
    let g = Grid::<4, 4>::new().unwrap();
    assert_eq!(g.to_flat(), vec![0i64; 16]);
    assert_eq!(g.width(), 4);
    assert_eq!(g.height(), 4);
    assert_eq!(Grid::<3, 3>::new().err(), Some(GridError::InvalidDimensions { width: 3, height: 3 }));
    assert_eq!(Grid::<0, 4>::new().err(), Some(GridError::InvalidDimensions { width: 0, height: 4 }));
}

#[test]
fn from_key_mixes_two_halves() {
    let key: Vec<i64> = (0..32).collect();
    let g = Grid::<4, 4>::from_key(&key).unwrap();
    assert_eq!(
        g.to_flat(),
        vec![
            4503599628419072, 1125899908022273, 281474978021378, 70368745619459, 17592187617284, 4398048215045,
            1099513462790, 274879873031, 68721573896, 17182097417, 4297326602, 1076232203, 271056908, 69861389,
            19660814, 7208975,
        ]
    );
}

#[test]
fn from_key_rejects_short_key() {
    let key = [1i64, 2, 3, 4, 5];
    assert_eq!(
        Grid::<4, 4>::from_key(&key).err(),
        Some(GridError::InvalidKeyLength { expected_len: 32, actual_len: 5 })
    );
}

#[test]
fn from_flat_pads_with_zeros_and_iter_gives_rows() {
    let g = Grid::<4, 4>::from_flat(&[1, 2, 3, 4, 5]).unwrap();
    let mut expected = vec![0i64; 16];
    expected[..5].copy_from_slice(&[1, 2, 3, 4, 5]);
    assert_eq!(g.to_flat(), expected);
    let rows = g.iter();
    assert_eq!(rows.len(), 4);
    assert_eq!(rows[0], vec![1, 2, 3, 4]);
    assert_eq!(rows[1], vec![5, 0, 0, 0]);
    assert_eq!(g.get(1, 0), 5);
}

#[test]
fn subcell_cell_exact_values() {
    assert_eq!(subcell_cell(0, 0), -3816338008621792056);
    assert_eq!(subcell_cell(1, 0), -6985604251599110770);
    assert_eq!(subcell_cell(0x0123456789ABCDEF, 3), 7824236355949832951);
    assert_eq!(subcell_cell(-1, 16), 2253021408489606368);
}

#[test]
fn precalculate_shifts_scales_row_fold() {
    let cells: Vec<i64> = (1..=16u64).map(|i| i.wrapping_mul(0x1111_1111_1111_1111) as i64).collect();
    let g = Grid::<4, 4>::from_flat(&cells).unwrap();
    assert_eq!(g.precalculate_shifts(), vec![1, 3, 1, 3]);
}

#[test]
fn increment_carries_across_cells() {
    let mut g = Grid::<4, 4>::from_flat(&[-1, 0, 7]).unwrap();
    g.increment(1);
    let flat = g.to_flat();
    assert_eq!(&flat[..3], &[0, 1, 7]);
    let mut h = Grid::<4, 4>::from_flat(&[5]).unwrap();
    h.increment(10);
    assert_eq!(h.to_flat()[0], 15);
}

#[test]
fn xor_and_ct_eq() {
    let a = Grid::<4, 4>::from_flat(&[1, 2, 3]).unwrap();
    let mut b = Grid::<4, 4>::from_flat(&[1, 2, 3]).unwrap();
    assert!(a.ct_eq(&b));
    b.xor_grids(&a);
    assert_eq!(b.to_flat(), vec![0i64; 16]);
    assert!(!a.ct_eq(&b));
}

#[test]
fn mix_columns_twice_is_identity() {
    let cells: Vec<i64> = (0..16).map(|i| (i as i64).wrapping_mul(0x0123_4567_89AB_CDEF)).collect();
    let mut g = Grid::<4, 4>::from_flat(&cells).unwrap();
    g.mix_columns();
    assert_ne!(g.to_flat(), cells);
    g.mix_columns();
    assert_eq!(g.to_flat(), cells);
}

#[test]
fn xtime_reduces_modulo_polynomial() {
    assert_eq!(xtime(1), 2);
    assert_eq!(xtime(1u64 << 63), 0x1B);
    assert!(is_involutory(&[1, 2, 4, 6]));
    assert!(!is_involutory(&[1, 2, 4, 7]));
}

#[test]
fn from_bytes_groups_big_endian_cells() {
    let mut bytes = vec![0u8; 128];
    bytes[7] = 1;
    bytes[8] = 0x80;
    let grids = Grid::<4, 4>::from_bytes(&bytes).unwrap();
    assert_eq!(grids.len(), 1);
    let flat = grids[0].to_flat();
    assert_eq!(flat[0], 1);
    assert_eq!(flat[1], i64::MIN);
    assert_eq!(
        Grid::<4, 4>::from_bytes(&bytes[..100]).err(),
        Some(GridError::InvalidByteLength { expected_mod: 128, actual_len: 100 })
    );
}

#[test]
fn round_keys_and_nonce() {
    let master = Grid::<8, 8>::from_key(&sample_key()).unwrap();
    let keys = generate_round_keys(&master).unwrap();
    assert_eq!(keys.len(), ROUND_KEYS);
    let again = generate_round_keys(&master).unwrap();
    assert!(keys.iter().zip(again.iter()).all(|(a, b)| a.ct_eq(b)));
    assert!(generate_nonce::<8, 8>().is_ok());
    assert_eq!(generate_key::<8, 8>().unwrap().len(), 128);
    assert_eq!(DEFAULT_GRID_WIDTH * DEFAULT_GRID_HEIGHT, 64);
}

#[test]
fn ctr_applied_twice_restores_grids() {
    let master = Grid::<4, 4>::from_key(&sample_key()[..32]).unwrap();
    let keys = generate_round_keys(&master).unwrap();
    let nonce = Grid::<4, 4>::from_flat(&[9, 8, 7]).unwrap();
    let before = vec![Grid::<4, 4>::from_flat(&[1, 2, 3]).unwrap(), Grid::<4, 4>::from_flat(&[4]).unwrap()];
    let mut grids = vec![before[0].clone(), before[1].clone()];
    apply_ctr(&mut grids, &nonce, &keys, Some(5));
    assert!(!grids[0].ct_eq(&before[0]));
    apply_ctr(&mut grids, &nonce, &keys, Some(5));
    assert!(grids[0].ct_eq(&before[0]) && grids[1].ct_eq(&before[1]));
}

#[test]
fn encrypt_then_decrypt_returns_padded_input() {
    let input: Vec<i64> = (0..70).map(|i| i * 31 - 1000).collect();
    let encrypted = encrypt::<8, 8>(&input, Some(&sample_key())).unwrap();
    assert_eq!(encrypted.output.len(), 2);
    let decrypted = decrypt(encrypted).unwrap();
    assert_eq!(&decrypted.output[..70], &input[..]);
    assert!(decrypted.output[70..].iter().all(|&v| v == 0));
    assert_eq!(decrypted.output.len(), 128);
}

#[test]
fn encrypt_rejects_short_key() {
    let err = encrypt::<8, 8>(&[1, 2, 3], Some(&[1, 2, 3])).err();
    assert_eq!(err, Some(GridError::InvalidKeyLength { expected_len: 128, actual_len: 3 }));
}

#[test]
fn encrypt_rejects_long_key() {
    let mut key = sample_key();
    key.push(7);
    let err = encrypt::<8, 8>(&[1, 2, 3], Some(&key)).err();
    assert_eq!(err, Some(GridError::InvalidKeyLength { expected_len: 128, actual_len: 129 }));
    let err = encrypt_string::<8, 8>("hi", Some(&key)).err();
    assert_eq!(err, Some(GridError::InvalidKeyLength { expected_len: 128, actual_len: 129 }));
}

#[test]
fn encrypt_string_round_trip() {
    let input = String::from("Hello world!");
    let encrypted = encrypt_string::<8, 8>(&input, None).expect("Encryption failed");
    let decrypted = decrypt_string(encrypted).expect("Decryption failed");
    assert_eq!(input, decrypted);
}

#[test]
fn encrypt_string_round_trip_non_ascii() {
    let input = String::from("ščř 🦀 odd");
    let encrypted = encrypt_string::<4, 4>(&input, Some(&sample_key()[..32])).unwrap();
    assert_eq!(decrypt_string(encrypted).unwrap(), input);
}

#[test]
fn decrypt_string_with_wrong_key_fails() {
    let encrypted = encrypt_string::<8, 8>("some secret text", Some(&sample_key())).unwrap();
    let other: Vec<i64> = sample_key().iter().map(|v| v ^ 1).collect();
    let wrong = EncryptedData {
        output: encrypted.output,
        key: Grid::<8, 8>::from_key(&other).unwrap(),
        nonce: encrypted.nonce,
    };
    assert!(matches!(decrypt_string(wrong), Err(GridError::InvalidUnicode { .. })));
}

fn stream_pair() -> (Grid<4, 4>, Grid<4, 4>) {
    (Grid::<4, 4>::from_key(&sample_key()[..32]).unwrap(), Grid::<4, 4>::from_flat(&[3, 1, 4, 1, 5]).unwrap())
}

#[test]
fn stream_chunking_does_not_change_output() {
    let data: Vec<i64> = (0..50).map(|i| i * 7 + 1).collect();
    let (key, nonce) = stream_pair();
    let mut one = RexStream::new(&key, nonce.clone()).unwrap();
    let mut whole = one.update(&data).unwrap();
    whole.extend(one.finalize().unwrap());
    let mut two = RexStream::new(&key, nonce.clone()).unwrap();
    let mut pieces = two.update(&data[..5]).unwrap();
    pieces.extend(two.update(&data[5..37]).unwrap());
    pieces.extend(two.update(&data[37..]).unwrap());
    pieces.extend(two.finalize().unwrap());
    assert_eq!(whole, pieces);
    assert_eq!(whole.len(), 50);
}

#[test]
fn stream_decrypts_what_it_encrypted() {
    let data: Vec<i64> = (0..21).map(|i| i - 10).collect();
    let (key, nonce) = stream_pair();
    let mut enc = RexStream::new(&key, nonce.clone()).unwrap();
    let mut cipher = enc.update(&data).unwrap();
    cipher.extend(enc.finalize().unwrap());
    assert_ne!(cipher, data);
    let mut dec = RexStream::new(&key, nonce).unwrap();
    let mut plain = dec.update(&cipher).unwrap();
    plain.extend(dec.finalize().unwrap());
    assert_eq!(plain, data);
}

#[test]
fn stream_matches_one_shot_encryption() {
    let data: Vec<i64> = (0..20).map(|i| i * 1000 + 3).collect();
    let (key, nonce) = stream_pair();
    let keys = generate_round_keys(&key).unwrap();
    let mut grids = vec![Grid::<4, 4>::from_flat(&data[..16]).unwrap(), Grid::<4, 4>::from_flat(&data[16..]).unwrap()];
    apply_ctr(&mut grids, &nonce, &keys, None);
    let mut expected: Vec<i64> = grids.iter().flat_map(|g| g.to_flat()).collect();
    expected.truncate(20);
    let mut s = RexStream::new(&key, nonce).unwrap();
    let mut out = s.update(&data).unwrap();
    out.extend(s.finalize().unwrap());
    assert_eq!(out, expected);
}

#[test]
fn stream_buffers_partial_grids() {
    let (key, nonce) = stream_pair();
    let mut s = RexStream::new(&key, nonce).unwrap();
    assert!(s.update(&[1, 2, 3]).unwrap().is_empty());
    assert_eq!(s.update(&[0; 13]).unwrap().len(), 16);
    assert!(s.finalize().unwrap().is_empty());
}

#[test]
fn authentication_accepts_and_rejects() {
    let encrypted = encrypt::<4, 4>(&[1, 2, 3], Some(&sample_key()[..32])).unwrap();
    let mac_key = [7u8; 32];
    let tagged = AuthenticatedData::authenticate(encrypted, &mac_key);
    assert!(tagged.verify(&mac_key));
    assert!(!tagged.verify(&[8u8; 32]));
    let mut tampered = AuthenticatedData { mac: tagged.mac, encrypted_data: tagged.encrypted_data };
    tampered.mac[0] ^= 1;
    assert!(!tampered.verify(&mac_key));
}

#[test]
fn set_row_replaces_one_row() {
    let mut g = Grid::<4, 4>::from_flat(&(0..16).collect::<Vec<i64>>()).unwrap();
    g.set_row(2, &[-1, -2, -3, -4]);
    assert_eq!(g.to_flat(), vec![0, 1, 2, 3, 4, 5, 6, 7, -1, -2, -3, -4, 12, 13, 14, 15]);
    assert_eq!(g.get(2, 3), -4);
    assert_eq!(g.get(3, 0), 12);
}
