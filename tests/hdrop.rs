use room237::hdrop::{build_hdrop_data, preferred_drop_effect_bytes, DROPFILES_SIZE};

fn units(bytes: &[u8]) -> Vec<u16> {
    bytes.chunks(2).map(|c| u16::from_le_bytes([c[0], c[1]])).collect()
}

#[test]
fn windows_path_decodes_to_input() {
    let path = "C:\\Users\\u\\pic.png";
    let data = build_hdrop_data(&vec![path.to_string()]);
    assert_eq!(&data[0..4], &[20, 0, 0, 0]);
    assert_eq!(&data[4..16], &[0u8; 12]);
    assert_eq!(&data[16..20], &[1, 0, 0, 0]);
    let list = units(&data[DROPFILES_SIZE..]);
    let n = path.encode_utf16().count();
    assert_eq!(String::from_utf16(&list[..n]).unwrap(), path);
    assert_eq!(&list[n..], &[0, 0]);
}

#[test]
fn block_length_formula() {
    let paths = vec!["/a/b.png".to_string(), "C:\\é\u{1F600}.jpg".to_string()];
    let data = build_hdrop_data(&paths);
    let sum: usize = paths.iter().map(|p| 2 * (p.encode_utf16().count() + 1)).sum();
    assert_eq!(data.len(), DROPFILES_SIZE + sum + 2);
    assert_eq!(data.len(), 20 + 18 + 22 + 2);
}

#[test]
fn paths_in_order_with_surrogates() {
    let paths = vec!["x".to_string(), "\u{1F600}".to_string()];
    let data = build_hdrop_data(&paths);
    let list = units(&data[DROPFILES_SIZE..]);
    assert_eq!(list, vec![0x78, 0, 0xD83D, 0xDE00, 0, 0]);
}

#[test]
fn empty_list_is_header_and_terminator() {
    let data = build_hdrop_data(&vec![]);
    assert_eq!(data.len(), DROPFILES_SIZE + 2);
    assert_eq!(&data[20..], &[0, 0]);
}

#[test]
fn drop_effect_is_copy() {
    assert_eq!(preferred_drop_effect_bytes(), vec![1, 0, 0, 0]);
}
