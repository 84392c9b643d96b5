use jsondump::arr_to_hex_swapped;

#[test]
fn empty_input_renders_empty() {
    assert_eq!(arr_to_hex_swapped(&[]), "");
}

#[test]
fn single_byte_renders_two_digits() {
    assert_eq!(arr_to_hex_swapped(&[0x00]), "00");
    assert_eq!(arr_to_hex_swapped(&[0x0f]), "0f");
    assert_eq!(arr_to_hex_swapped(&[0xf0]), "f0");
    assert_eq!(arr_to_hex_swapped(&[0xff]), "ff");
}

#[test]
fn bytes_are_rendered_in_reversed_order() {
    assert_eq!(arr_to_hex_swapped(&[0x12, 0x34, 0x56]), "563412");
}

#[test]
fn genesis_block_hash_renders_in_display_order() {
    // The stored (wire-order) bytes of the Bitcoin genesis block hash.
    let stored: [u8; 32] = [
        0x6f, 0xe2, 0x8c, 0x0a, 0xb6, 0xf1, 0xb3, 0x72, 0xc1, 0xa6, 0xa2, 0x46, 0xae, 0x63, 0xf7,
        0x4f, 0x93, 0x1e, 0x83, 0x65, 0xe1, 0x5a, 0x08, 0x9c, 0x68, 0xd6, 0x19, 0x00, 0x00, 0x00,
        0x00, 0x00,
    ];
    assert_eq!(
        arr_to_hex_swapped(&stored),
        "000000000019d6689c085ae165831e934ff763ae46a2a6c172b3f1b60a8ce26f"
    );
}

#[test]
fn rendering_twice_reversed_returns_original_digits() {
    // Reversing the bytes twice is the identity: render the bytes, decode the
    // digit pairs in reversed order by hand, and compare.
    let bytes = vec![0xde, 0xad, 0xbe, 0xef, 0x01];
    let hex = arr_to_hex_swapped(&bytes);
    let mut decoded: Vec<u8> = Vec::new();
    let chars: Vec<char> = hex.chars().collect();
    let mut i = chars.len();
    while i >= 2 {
        let hi = chars[i - 2].to_digit(16).unwrap() as u8;
        let lo = chars[i - 1].to_digit(16).unwrap() as u8;
        decoded.push(16 * hi + lo);
        i -= 2;
    }
    assert_eq!(decoded, bytes);
}
