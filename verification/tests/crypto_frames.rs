use vpn::crypto::{get_crypt, process_genpass, Crypt, DataCrypt, EncryptChaCha20, Nothing};
use vpn::error::{ServiceError, StreamError, VpnError};
use vpn::network::frame::{decode_frame, decode_header, encode_frame};
use vpn::service::streams::{message_len, ProstReadStream, ProstWriteStream};

fn key_material() -> Vec<u8> {
    (0u8..44).collect()
}

#[test]
fn chacha_round_trips() {
    let c = EncryptChaCha20::try_new(&key_material()).unwrap();
    let plain = b"attack at dawn".to_vec();
    let sealed = c.encrypt(&plain).unwrap();
    assert_eq!(sealed.len(), plain.len() + 16);
    assert_ne!(&sealed[..plain.len()], &plain[..]);
    assert_eq!(c.decrypt(&sealed).unwrap(), plain);
}

#[test]
fn chacha_refuses_tampered_or_foreign_ciphertext() {
    let c = EncryptChaCha20::new([7; 32], [1; 12]);
    let mut sealed = c.encrypt(b"hello").unwrap();
    sealed[0] ^= 1;
    assert!(matches!(c.decrypt(&sealed), Err(VpnError::DecryptError)));
    let other = EncryptChaCha20::new([8; 32], [1; 12]);
    let sealed = c.encrypt(b"hello").unwrap();
    assert!(matches!(other.decrypt(&sealed), Err(VpnError::DecryptError)));
    assert!(matches!(c.decrypt(&[1, 2, 3]), Err(VpnError::DecryptError)));
}

#[test]
fn same_key_material_gives_same_cipher() {
    let a = EncryptChaCha20::try_new(&key_material()).unwrap();
    let mut key = [0u8; 32];
    let mut nonce = [0u8; 12];
    key.copy_from_slice(&key_material()[..32]);
    nonce.copy_from_slice(&key_material()[32..44]);
    let b = EncryptChaCha20::new(key, nonce);
    assert_eq!(a.encrypt(b"x").unwrap(), b.encrypt(b"x").unwrap());
}

#[test]
fn nothing_leaves_data_alone() {
    let n = Nothing;
    assert_eq!(n.encrypt(&[1, 2, 3]).unwrap(), vec![1, 2, 3]);
    assert_eq!(n.decrypt(&[4, 5]).unwrap(), vec![4, 5]);
}

#[test]
fn crypt_follows_the_key_file() {
    let with_key = get_crypt(&Some(key_material())).unwrap();
    assert!(matches!(with_key, Crypt::ChaCha20(_)));
    let sealed = with_key.encrypt(b"abc").unwrap();
    assert_eq!(sealed.len(), 19);
    assert_eq!(with_key.decrypt(&sealed).unwrap(), b"abc".to_vec());
    let without = get_crypt(&None).unwrap();
    assert!(matches!(without, Crypt::Nothing(_)));
    assert_eq!(without.encrypt(b"abc").unwrap(), b"abc".to_vec());
}

#[test]
fn generated_key_file_has_44_characters() {
    let files = EncryptChaCha20::generate().unwrap();
    assert_eq!(files.len(), 1);
    assert_eq!(files[0].0, "chacha20.txt");
    assert_eq!(files[0].1.len(), 44);
    assert!(EncryptChaCha20::try_new(&files[0].1).is_ok());
}

#[test]
fn passwords_use_the_selected_classes() {
    let p = process_genpass(44, true, true, true, true).unwrap();
    assert_eq!(p.len(), 44);
    assert!(p.bytes().any(|c| c.is_ascii_uppercase()));
    assert!(p.bytes().any(|c| c.is_ascii_lowercase()));
    assert!(p.bytes().any(|c| c.is_ascii_digit()));
    assert!(p.bytes().any(|c| b"!@#$%^&*_".contains(&c)));
    assert!(!p.contains('I') && !p.contains('O') && !p.contains('l') && !p.contains('0'));

    let digits = process_genpass(12, false, false, true, false).unwrap();
    assert_eq!(digits.len(), 12);
    assert!(digits.bytes().all(|c| (b'1'..=b'9').contains(&c)));
}

#[test]
fn header_splits_length_and_flag() {
    assert_eq!(decode_header(0x8000_0010), (0x10, true));
    assert_eq!(decode_header(0x0000_0010), (0x10, false));
    assert_eq!(decode_header(0x7fff_ffff), (0x7fff_ffff, false));
}

#[test]
fn small_frame_is_plain() {
    let frame = encode_frame(b"hello").unwrap();
    assert_eq!(frame, vec![0, 0, 0, 5, b'h', b'e', b'l', b'l', b'o']);
    let mut stream = frame.clone();
    stream.extend_from_slice(&[1, 2, 3]);
    let (payload, n) = decode_frame(&stream).unwrap();
    assert_eq!(payload, b"hello".to_vec());
    assert_eq!(n, 9);
}

#[test]
fn frame_at_the_limit_is_not_compressed() {
    let payload = vec![b'z'; 1436];
    let frame = encode_frame(&payload).unwrap();
    assert_eq!(&frame[..4], &[0, 0, 0x05, 0x9c]);
    assert_eq!(frame.len(), 1440);
}

#[test]
fn large_frame_is_compressed_and_decodes_back() {
    let payload: Vec<u8> = (0..5000u32).map(|i| (i % 7) as u8).collect();
    let frame = encode_frame(&payload).unwrap();
    assert_eq!(frame[0] & 0x80, 0x80);
    assert!(frame.len() < payload.len());
    let header = u32::from_be_bytes([frame[0], frame[1], frame[2], frame[3]]) as usize;
    let (len, compressed) = decode_header(header);
    assert!(compressed);
    assert_eq!(len + 4, frame.len());
    let (back, n) = decode_frame(&frame).unwrap();
    assert_eq!(back, payload);
    assert_eq!(n, frame.len());
}

#[test]
fn bad_compressed_frame_is_refused() {
    let frame = [0x80u8, 0, 0, 3, 1, 2, 3];
    assert!(matches!(decode_frame(&frame), Err(VpnError::StreamError(StreamError::InvalidCompression))));
}

#[test]
fn message_length_header() {
    assert_eq!(message_len(&[0, 0, 1, 0]), Some(256));
    assert_eq!(message_len(&[0x7f, 0xff, 0xff, 0xff, 9]), Some(0x7fff_ffff));
    assert_eq!(message_len(&[0x80, 0, 0, 0]), None);
}

#[test]
fn message_round_trips_through_the_streams() {
    let crypt = get_crypt(&Some(key_material())).unwrap();
    let writer = ProstWriteStream::new((), crypt);
    let reader = ProstReadStream::new((), crypt);
    let bytes = writer.send(b"encoded message").unwrap();
    assert_eq!(&bytes[..4], &[0, 0, 0, 31]);
    let mut stream = bytes.clone();
    stream.extend_from_slice(&[0xaa, 0xbb]);
    let (plain, n) = reader.next(&stream).unwrap();
    assert_eq!(plain, b"encoded message".to_vec());
    assert_eq!(n, bytes.len());
}

#[test]
fn plain_message_and_wrong_key() {
    let writer = ProstWriteStream::new((), Crypt::Nothing(Nothing));
    let bytes = writer.send(&[1, 2, 3]).unwrap();
    assert_eq!(bytes, vec![0, 0, 0, 3, 1, 2, 3]);

    let sealed = ProstWriteStream::new((), Crypt::ChaCha20(EncryptChaCha20::new([1; 32], [2; 12])))
        .send(b"secret")
        .unwrap();
    let wrong = ProstReadStream::new((), Crypt::ChaCha20(EncryptChaCha20::new([3; 32], [2; 12])));
    assert!(matches!(wrong.next(&sealed), Err(VpnError::ServiceError(ServiceError::DecryptError))));
}

#[test]
fn key_file_holds_the_password_bytes() {
    let files = EncryptChaCha20::key_file(&"secret-pass".to_owned());
    assert_eq!(files.len(), 1);
    assert_eq!(files[0].0, "chacha20.txt");
    assert_eq!(files[0].1, b"secret-pass".to_vec());
}

#[test]
fn chacha_accepts_empty_and_refuses_bare_tags_of_other_keys() {
    let c = EncryptChaCha20::new([5; 32], [6; 12]);
    let sealed = c.encrypt(&[]).unwrap();
    assert_eq!(sealed.len(), 16);
    assert_eq!(c.decrypt(&sealed).unwrap(), Vec::<u8>::new());
    assert!(matches!(c.decrypt(&[0u8; 15]), Err(VpnError::DecryptError)));
}
