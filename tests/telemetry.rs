use pocket_relay_client::telemetry::{decode_message, payload_length, tlm3, xor_cipher, TLM3_KEY};

#[test]
fn test_xor_cipher() {
    // Data that should be decodable
    let test_data =
        "123456789:;<=>?@ABCDEFGHIJKLMNOPQRSTUVWXYZ[\\]^_`abcdefghijklmnopqrstuvwxyz{|}~";

    let enc_data = xor_cipher(test_data.as_bytes(), &TLM3_KEY);
    let dec_data = xor_cipher(&enc_data, &TLM3_KEY);

    assert_eq!(&dec_data, test_data.as_bytes());
}

#[test]
fn test_known_data() {
    let enc_data = &[
        100, 88, 85, 144, 68, 64, 49, 50, 71, 141, 82, 67, 144, 82, 81, 83, 91, 146, 91, 65,
        98, 60, 59, 45, 67, 54, 107, 135, 59, 74, 111, 56, 60, 50, 91, 30, 76, 135, 148, 29,
        43, 47, 55, 77, 84, 133, 128, 71, 78, 189, 55, 56, 73, 30, 100, 88, 85, 144, 70, 54,
        51, 91, 69, 27, 89, 67, 144, 82, 81, 83, 89, 147, 70, 33, 110, 63, 58, 86, 46, 41, 111,
        142, 71, 33, 99, 59, 60, 90, 22, 141, 82, 27, 78, 141, 80, 80, 87, 93, 22, 90, 95, 22,
        75, 68, 95, 138, 22, 90, 53, 85, 84, 145, 82, 134, 134, 128, 137, 29, 90, 85, 83, 135,
        146, 144, 86, 80, 138, 25, 68, 25, 128, 54, 47, 51, 94, 144, 104,
    ];
    let expected = "000002DF/-;00000022/BOOT/SESS/OLNG/vlng=INT&tlng=INT,000002DF/-;00000023/ONLN/BLAZ/DCON/berr=-2146631680&fsta=11&tsta=3&sess=pcwdjtOCVpD\0";
    let dec_data = xor_cipher(enc_data, &TLM3_KEY);

    assert_eq!(&dec_data, expected.as_bytes());
}

#[test]
fn test_tlm3_line() {
    let enc_data = &mut [
        64, 56, 97, 45, 100, 88, 85, 144, 68, 64, 49, 50, 71, 141, 82, 67, 144, 82, 81, 83, 91,
        146, 91, 65, 98, 60, 59, 45, 67, 54, 107, 135, 59, 74, 111, 56, 60, 50, 91, 30, 76,
        135, 148, 29, 43, 47, 55, 77, 84, 133, 128, 71, 78, 189, 55, 56, 73, 30, 100, 88, 85,
        144, 70, 54, 51, 91, 69, 27, 89, 67, 144, 82, 81, 83, 89, 147, 70, 33, 110, 63, 58, 86,
        46, 41, 111, 142, 71, 33, 99, 59, 60, 90, 22, 141, 82, 27, 78, 141, 80, 80, 87, 93, 22,
        90, 95, 22, 75, 68, 95, 138, 22, 90, 53, 85, 84, 145, 82, 134, 134, 128, 137, 29, 90,
        85, 83, 135, 146, 144, 86, 80, 138, 25, 68, 25, 128, 54, 47, 51, 94, 144, 104,
    ];
    let expected = "000002DF/-;00000022/BOOT/SESS/OLNG/vlng=INT&tlng=INT,000002DF/-;00000023/ONLN/BLAZ/DCON/berr=-2146631680&fsta=11&tsta=3&sess=pcwdjtOCVpD\0";
    let dec_data = tlm3(enc_data);
    assert_eq!(dec_data.as_bytes(), expected.as_bytes());
}

#[test]
fn xor_cipher_twice_restores_low_bytes() {
    let message: Vec<u8> = (0u8..0x80).collect();
    let key = b"k3y";
    let once = xor_cipher(&message, key);
    assert_ne!(once, message);
    assert_eq!(xor_cipher(&once, key), message);
}

#[test]
fn xor_cipher_exact_bytes() {
    // (0xFF ^ 0x54) % 0x80 = 0x2B, (0x00 ^ 0x68) % 0x80 = 0x68
    assert_eq!(xor_cipher(&[0xFF, 0x00], &TLM3_KEY), vec![0x2B, 0x68]);
    // The key repeats: index 27 uses the first key byte again
    let input = vec![0u8; 28];
    let out = xor_cipher(&input, &TLM3_KEY);
    assert_eq!(out[27], TLM3_KEY[0]);
}

#[test]
fn xor_cipher_empty_key_gives_empty_output() {
    assert!(xor_cipher(&[1, 2, 3], &[]).is_empty());
}

#[test]
fn tlm3_without_dash_is_debug_text() {
    assert_eq!(tlm3(&[1, 2, 3]), "[1, 2, 3]");
}

#[test]
fn tlm3_keeps_only_the_part_after_the_first_dash() {
    let body = xor_cipher(b"hello-world", &TLM3_KEY);
    let mut input = b"ab-".to_vec();
    input.extend_from_slice(&body);
    assert_eq!(tlm3(&input), "hello-world");
}

#[test]
fn decode_message_pairs() {
    let mut message = b"name=12\nnoequals\nTLM3=p-".to_vec();
    message.extend_from_slice(&xor_cipher(b"a=b", &TLM3_KEY));
    message.extend_from_slice(b"\nk=v=w\n");
    let decoded = decode_message(message);
    assert_eq!(
        decoded.values,
        vec![
            ("name".to_string(), "[49, 50]".to_string()),
            ("TLM3".to_string(), "a=b".to_string()),
            ("k".to_string(), "[118, 61, 119]".to_string()),
        ]
    );
}

#[test]
fn decode_message_lossy_key_and_empty_input() {
    let decoded = decode_message(vec![0xFF, b'=', b'1']);
    assert_eq!(decoded.values, vec![("\u{FFFD}".to_string(), "[49]".to_string())]);
    assert!(decode_message(Vec::new()).values.is_empty());
}

#[test]
fn payload_length_excludes_header() {
    let mut header = [0u8; 12];
    header[10] = 0x01;
    header[11] = 0x00;
    assert_eq!(payload_length(&header), 244);
    header[10] = 0;
    header[11] = 5;
    assert_eq!(payload_length(&header), 0);
}
