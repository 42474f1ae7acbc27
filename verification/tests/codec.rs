use rauthy_pam_nss::codec::{
    put_signed, put_text, put_varint, take_signed, take_text, take_varint,
};
use rauthy_pam_nss::wire::{deserialize, put_list, serialize, take_list};

fn std_bytes<T: bincode::Encode>(v: T) -> Vec<u8> {
    bincode::encode_to_vec(v, bincode::config::standard()).unwrap()
}

#[test]
fn numbers_take_as_few_bytes_as_they_need() {
    for (v, expected) in [
        (0u64, vec![0u8]),
        (250, vec![250]),
        (251, vec![251, 251, 0]),
        (65_535, vec![251, 255, 255]),
        (65_536, vec![252, 0, 0, 1, 0]),
        (4_294_967_295, vec![252, 255, 255, 255, 255]),
        (4_294_967_296, vec![253, 0, 0, 0, 0, 1, 0, 0, 0]),
        (u64::MAX, vec![253, 255, 255, 255, 255, 255, 255, 255, 255]),
    ] {
        let mut out = vec![7u8];
        put_varint(&mut out, v);
        assert_eq!(&out[1..], &expected[..]);
        assert_eq!(&out[1..], &std_bytes(v)[..]);
        assert_eq!(take_varint(&out, 1, true), Some((v, out.len())));
        if v <= u32::MAX as u64 {
            assert_eq!(take_varint(&out, 1, false), Some((v, out.len())));
        } else {
            assert_eq!(take_varint(&out, 1, false), None);
        }
    }
}

#[test]
fn signed_numbers_are_folded() {
    for (v, expected) in [
        (0i64, vec![0u8]),
        (-1, vec![1]),
        (1, vec![2]),
        (-2, vec![3]),
        (125, vec![250]),
        (-126, vec![251, 251, 0]),
        (i64::MAX, vec![253, 254, 255, 255, 255, 255, 255, 255, 255]),
        (i64::MIN, vec![253, 255, 255, 255, 255, 255, 255, 255, 255]),
    ] {
        let mut out = Vec::new();
        put_signed(&mut out, v);
        assert_eq!(out, expected);
        assert_eq!(out, std_bytes(v));
        assert_eq!(take_signed(&out, 0), Some((v, out.len())));
    }
}

#[test]
fn reading_numbers_stops_at_the_end() {
    assert_eq!(take_varint(&[], 0, true), None);
    assert_eq!(take_varint(&[5], 1, true), None);
    assert_eq!(take_varint(&[251, 1], 0, true), None);
    assert_eq!(take_varint(&[252, 1, 2, 3], 0, true), None);
    assert_eq!(take_varint(&[253, 1, 2, 3, 4, 5, 6, 7], 0, true), None);
    assert_eq!(take_varint(&[254, 0, 0, 0, 0, 0, 0, 0, 0, 0, 0, 0, 0, 0, 0, 0, 0], 0, true), None);
    assert_eq!(take_varint(&[255], 0, true), None);
    assert_eq!(take_varint(&[251, 3, 0, 9], 0, true), Some((3, 3)));
}

#[test]
fn texts_are_their_length_and_their_bytes() {
    for s in ["", "a", "héllo", "𝄞", &"x".repeat(300)] {
        let mut out = Vec::new();
        put_text(&mut out, s);
        assert_eq!(out, std_bytes(s));
        assert_eq!(take_text(&out, 0), Some((s.to_string(), out.len())));
    }
    assert_eq!(take_text(&[2, b'a'], 0), None);
    assert_eq!(take_text(&[1, 0x80], 0), None);
    assert_eq!(take_text(&[2, 0xC3, 0x28], 0), None);
    assert_eq!(take_text(&[253, 255, 255, 255, 255, 255, 255, 255, 255, b'a'], 0), None);
}

#[test]
fn lists_are_their_number_and_their_items() {
    let list: Vec<String> = vec!["a".to_string(), String::new(), "ccc".to_string()];
    let mut out = Vec::new();
    put_list(&mut out, &list);
    assert_eq!(out, vec![3, 1, b'a', 0, 3, b'c', b'c', b'c']);
    assert_eq!(out, std_bytes(list.clone()));
    assert_eq!(take_list::<String>(&out, 0), Some((list, out.len())));
    assert_eq!(take_list::<String>(&[2, 1, b'a'], 0), None);
    assert_eq!(take_list::<String>(&[0], 0), Some((vec![], 1)));
    let many: Vec<String> = (0..300).map(|i| i.to_string()).collect();
    let mut out = Vec::new();
    put_list(&mut out, &many);
    assert_eq!(out, std_bytes(many.clone()));
    assert_eq!(take_list::<String>(&out, 0), Some((many, out.len())));
}

#[test]
fn values_are_written_and_read_back() {
    let text = "héllo".to_string();
    let bytes = serialize(&text);
    assert_eq!(bytes, std_bytes("héllo"));
    assert_eq!(deserialize::<String>(&bytes), Some(text));
    assert_eq!(deserialize::<String>(&[4, b'a']), None);
}
