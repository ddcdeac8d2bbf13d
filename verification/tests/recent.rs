use astromark::utils::cfg::flags::Flags;
use astromark::utils::cfg::recent::{copy_paths, Recent, DIR};
use astromark::utils::cfg::{
    bytes_or_empty, deserialize_or_default, frame_or_none, list_or_default, serialize,
    DefaultBytes, LEVEL,
};

fn flags(cap: i64) -> Flags {
    Flags { max_recents: cap, ..Flags::default() }
}

fn list(paths: &[&str]) -> Recent {
    Recent::from_paths(paths.iter().map(|p| p.to_string()).collect())
}

fn paths(recent: &Recent) -> Vec<&str> {
    recent.get_inner().iter().map(|p| p.as_str()).collect()
}

#[test]
fn add_to_full_list_drops_the_oldest() {
    let mut recent = list(&["a", "b"]);
    recent.add(&flags(2), "c".to_string());
    assert_eq!(paths(&recent), vec!["b", "c"]);
}

#[test]
fn add_of_present_path_moves_it_to_the_end() {
    let mut recent = list(&["a", "b", "c"]);
    recent.add(&flags(8), "a".to_string());
    assert_eq!(paths(&recent), vec!["b", "c", "a"]);
}

#[test]
fn add_of_present_path_does_not_grow_a_full_list() {
    let mut recent = list(&["a", "b"]);
    recent.add(&flags(2), "a".to_string());
    assert_eq!(paths(&recent), vec!["b", "a"]);
}

#[test]
fn add_of_the_newest_path_changes_nothing() {
    let mut recent = list(&["a", "b"]);
    recent.add(&flags(2), "b".to_string());
    assert_eq!(paths(&recent), vec!["a", "b"]);
}

#[test]
fn add_to_empty_list() {
    let mut recent = Recent::default();
    recent.add(&flags(8), "/tmp/a.md".to_string());
    assert_eq!(paths(&recent), vec!["/tmp/a.md"]);
}

#[test]
fn add_with_cap_zero_leaves_nothing() {
    let mut recent = list(&["a"]);
    recent.add(&flags(0), "b".to_string());
    assert!(recent.get_inner().is_empty());
}

#[test]
fn add_with_negative_cap_leaves_nothing() {
    let mut recent = Recent::default();
    recent.add(&flags(-3), "b".to_string());
    assert!(recent.get_inner().is_empty());
}

#[test]
fn add_with_cap_one_keeps_the_latest() {
    let mut recent = Recent::default();
    recent.add(&flags(1), "a".to_string());
    recent.add(&flags(1), "b".to_string());
    assert_eq!(paths(&recent), vec!["b"]);
}

#[test]
fn add_with_a_smaller_cap_cuts_the_list_down() {
    let mut recent = list(&["a", "b", "c", "d"]);
    recent.add(&flags(2), "e".to_string());
    assert_eq!(paths(&recent), vec!["d", "e"]);
}

#[test]
fn many_adds_stay_within_cap_and_without_repeats() {
    let mut recent = Recent::default();
    let names = ["a", "b", "a", "c", "d", "b", "b", "e", "a", "f", "c"];
    for name in names {
        recent.add(&flags(3), name.to_string());
        let now = paths(&recent);
        assert!(now.len() <= 3);
        for i in 0..now.len() {
            for j in 0..now.len() {
                assert!(i == j || now[i] != now[j]);
            }
        }
        assert_eq!(*now.last().unwrap(), name);
    }
    assert_eq!(paths(&recent), vec!["a", "f", "c"]);
}

#[test]
fn from_paths_keeps_a_list_without_repeats() {
    let recent = list(&["x", "y", "z"]);
    assert_eq!(paths(&recent), vec!["x", "y", "z"]);
}

#[test]
fn from_paths_drops_a_list_with_repeats() {
    let recent = list(&["x", "y", "x"]);
    assert!(recent.get_inner().is_empty());
}

#[test]
fn truncate_keeps_the_newest() {
    let mut recent = list(&["a", "b", "c"]);
    recent.truncate(&flags(2));
    assert_eq!(paths(&recent), vec!["b", "c"]);
    recent.truncate(&flags(5));
    assert_eq!(paths(&recent), vec!["b", "c"]);
    recent.truncate(&flags(0));
    assert!(recent.get_inner().is_empty());
}

#[test]
fn clone_is_the_same_list() {
    let recent = list(&["a", "b"]);
    assert_eq!(recent.clone(), recent);
    assert_eq!(copy_paths(recent.get_inner()), vec!["a".to_string(), "b".to_string()]);
}

#[test]
fn written_list_reads_back() {
    let recent = list(&["/home/me/notes.md", "/tmp/ä ö.md", ""]);
    let bytes = recent.write().unwrap();
    assert_eq!(Recent::read(&bytes), recent);
}

#[test]
fn written_bytes_are_a_zstd_frame_of_the_bincode_list() {
    let recent = list(&["ab"]);
    let bytes = recent.write().unwrap();
    assert_eq!(&bytes[..4], &[0x28, 0xb5, 0x2f, 0xfd]);
    let inner = zstd::decode_all(&bytes[..]).unwrap();
    assert_eq!(
        inner,
        vec![1, 0, 0, 0, 0, 0, 0, 0, 2, 0, 0, 0, 0, 0, 0, 0, b'a', b'b']
    );
}

#[test]
fn written_frame_holds_lengths_in_eight_bytes_and_texts_as_utf8() {
    let recent = list(&["", "ä€", "/x"]);
    let bytes = recent.write().unwrap();
    let inner = zstd::decode_all(&bytes[..]).unwrap();
    let mut expected: Vec<u8> = vec![3, 0, 0, 0, 0, 0, 0, 0];
    expected.extend([0, 0, 0, 0, 0, 0, 0, 0]);
    expected.extend([5, 0, 0, 0, 0, 0, 0, 0, 0xc3, 0xa4, 0xe2, 0x82, 0xac]);
    expected.extend([2, 0, 0, 0, 0, 0, 0, 0, b'/', b'x']);
    assert_eq!(inner, expected);
}

#[test]
fn written_frame_of_a_long_list_counts_in_the_lowest_byte_first() {
    let paths: Vec<String> = (0..300).map(|i| format!("{i}")).collect();
    let bytes = serialize(&paths).unwrap();
    let inner = zstd::decode_all(&bytes[..]).unwrap();
    assert_eq!(&inner[..8], &[0x2c, 0x01, 0, 0, 0, 0, 0, 0]);
    assert_eq!(&inner[8..17], &[1, 0, 0, 0, 0, 0, 0, 0, b'0']);
    assert_eq!(deserialize_or_default(&bytes), paths);
}

#[test]
fn default_bytes_are_a_frame_of_the_empty_list() {
    let bytes = <Recent as DefaultBytes>::default_bytes();
    assert_eq!(zstd::decode_all(&bytes[..]).unwrap(), vec![0u8; 8]);
    assert_eq!(Some(bytes), Recent::default().write());
}

#[test]
fn frame_or_none_wants_both_steps() {
    assert_eq!(frame_or_none(Some(vec![1, 2]), Some(vec![9])), Some(vec![9]));
    assert_eq!(frame_or_none(Some(vec![1, 2]), None), None);
    assert_eq!(frame_or_none(None, Some(vec![9])), None);
    assert_eq!(frame_or_none(None, None), None);
}

#[test]
fn bytes_or_empty_takes_the_bytes_or_none() {
    assert_eq!(bytes_or_empty(Some(vec![4, 5])), vec![4, 5]);
    assert_eq!(bytes_or_empty(Some(vec![])), Vec::<u8>::new());
    assert_eq!(bytes_or_empty(None), Vec::<u8>::new());
}

#[test]
fn read_of_what_is_no_frame_is_empty() {
    assert_eq!(Recent::read(b"not a frame"), Recent::default());
    assert_eq!(Recent::read(&[]), Recent::default());
}

#[test]
fn read_of_bare_bincode_is_empty() {
    let bare = bincode::serialize(&vec!["a".to_string()]).unwrap();
    assert_eq!(Recent::read(&bare), Recent::default());
}

#[test]
fn read_of_a_frame_that_holds_no_list_is_empty() {
    let frame = zstd::encode_all(&[9u8, 9, 9][..], 0).unwrap();
    assert_eq!(Recent::read(&frame), Recent::default());
}

#[test]
fn read_of_a_list_with_repeats_is_empty() {
    let bytes = serialize(&vec!["a".to_string(), "a".to_string()]).unwrap();
    assert_eq!(
        deserialize_or_default(&bytes),
        vec!["a".to_string(), "a".to_string()]
    );
    assert_eq!(Recent::read(&bytes), Recent::default());
}

#[test]
fn deserialize_or_default_reads_what_serialize_wrote() {
    let paths = vec!["one".to_string(), "two".to_string()];
    let bytes = serialize(&paths).unwrap();
    assert_ne!(bytes, b"one".to_vec());
    assert_eq!(deserialize_or_default(&bytes), paths);
    assert_eq!(deserialize_or_default(b"junk"), Vec::<String>::new());
}

#[test]
fn list_or_default_wants_both_steps() {
    let read = vec!["a".to_string()];
    assert_eq!(list_or_default(Some(vec![1]), Some(read.clone())), read);
    assert_eq!(list_or_default(Some(vec![1]), None), Vec::<String>::new());
    assert_eq!(list_or_default(None, Some(read)), Vec::<String>::new());
    assert_eq!(list_or_default(None, None), Vec::<String>::new());
}

#[test]
fn default_bytes_read_as_the_empty_list() {
    let bytes = <Recent as DefaultBytes>::default_bytes();
    assert!(!bytes.is_empty());
    assert_eq!(Recent::read(&bytes), Recent::default());
}

#[test]
fn file_name_and_level() {
    assert_eq!(DIR, ".recents");
    assert_eq!(LEVEL, 0);
}
