use fcx::file::{FcxFile, FormatError};
use fcx::ui::cli::{parse_action, Action};

const MAGIC: [u8; 8] = [0x66, 0x63, 0x3c, 0x33, 0x72, 0x75, 0x73, 0x74];

fn sample_container() -> FcxFile {
    let mut f = FcxFile::new();
    f.set_content(vec![0xaa, 0xbb, 0xcc]);
    f.salt = vec![1, 2, 3, 4, 5, 6, 7, 8];
    f.rounds = 0x01020304;
    f.nonce = vec![9, 8, 7, 6, 5, 4, 3, 2, 1, 0, 11, 12];
    f
}

#[test]
fn layout_is_byte_exact() {
    let f = sample_container();
    let b = f.to_bytes();
    assert_eq!(b.len(), 42 + 3 + 4);
    assert_eq!(&b[0..8], &MAGIC);
    assert_eq!(&b[8..10], &[0x00, 0x01]);
    assert_eq!(&b[10..18], &[1, 2, 3, 4, 5, 6, 7, 8]);
    assert_eq!(&b[18..22], &[0x01, 0x02, 0x03, 0x04]);
    assert_eq!(&b[22..34], &[9, 8, 7, 6, 5, 4, 3, 2, 1, 0, 11, 12]);
    assert_eq!(&b[34..42], &[0, 0, 0, 0, 0, 0, 0, 3]);
    assert_eq!(&b[42..45], &[0xaa, 0xbb, 0xcc]);
    let expected = xxhash_rust::xxh32::xxh32(&[0xaa, 0xbb, 0xcc], 3);
    assert_eq!(&b[45..49], &expected.to_be_bytes());
}

#[test]
fn parse_round_trips() {
    let f = sample_container();
    let b = f.to_bytes();
    let g = FcxFile::parse(&b).expect("a serialized container parses");
    assert_eq!(g.version, f.version);
    assert_eq!(g.salt, f.salt);
    assert_eq!(g.rounds, f.rounds);
    assert_eq!(g.nonce, f.nonce);
    assert_eq!(g.len(), f.len());
    assert_eq!(g.get_content(), f.get_content());
    assert_eq!(g.checksum, f.checksum);
}

#[test]
fn empty_body_round_trips() {
    let mut f = FcxFile::new();
    f.set_content(Vec::new());
    let b = f.to_bytes();
    assert_eq!(b.len(), 46);
    let g = FcxFile::parse(&b).expect("an empty body parses");
    assert_eq!(g.len(), 0);
    assert_eq!(g.get_content(), Vec::<u8>::new());
}

#[test]
fn wrong_magic_is_rejected() {
    let f = sample_container();
    let mut b = f.to_bytes();
    b[0] ^= 0x01;
    assert!(matches!(FcxFile::parse(&b), Err(FormatError::NotThisFormat)));
}

#[test]
fn garbage_is_rejected() {
    let b = vec![0x42u8; 64];
    assert!(matches!(FcxFile::parse(&b), Err(FormatError::NotThisFormat)));
}

#[test]
fn short_input_is_truncated() {
    assert!(matches!(FcxFile::parse(&Vec::new()), Err(FormatError::Truncated)));
    assert!(matches!(FcxFile::parse(&MAGIC[0..7].to_vec()), Err(FormatError::Truncated)));
    let header_only = sample_container().to_bytes()[0..41].to_vec();
    assert!(matches!(FcxFile::parse(&header_only), Err(FormatError::Truncated)));
}

#[test]
fn declared_length_beyond_end_is_truncated() {
    let f = sample_container();
    let mut b = f.to_bytes();
    // declare a body one byte longer than what follows
    b[41] = 4;
    assert!(matches!(FcxFile::parse(&b), Err(FormatError::Truncated)));
}

#[test]
fn corrupted_body_is_an_integrity_failure() {
    let f = sample_container();
    let mut b = f.to_bytes();
    b[43] ^= 0xff;
    assert!(matches!(FcxFile::parse(&b), Err(FormatError::IntegrityFailure)));
}

#[test]
fn corrupted_checksum_is_an_integrity_failure() {
    let f = sample_container();
    let mut b = f.to_bytes();
    let last = b.len() - 1;
    b[last] ^= 0x10;
    assert!(matches!(FcxFile::parse(&b), Err(FormatError::IntegrityFailure)));
}

#[test]
fn trailing_bytes_are_ignored() {
    let f = sample_container();
    let mut b = f.to_bytes();
    b.push(0xde);
    b.push(0xad);
    let g = FcxFile::parse(&b).expect("extra trailing bytes do not matter");
    assert_eq!(g.get_content(), f.get_content());
}

#[test]
fn new_container_is_blank() {
    let f = FcxFile::new();
    assert_eq!(f.version, 1);
    assert_eq!(f.salt, vec![0u8; 8]);
    assert_eq!(f.rounds, 0);
    assert_eq!(f.nonce, vec![0u8; 12]);
    assert_eq!(f.len(), 0);
    assert_eq!(f.get_content(), Vec::<u8>::new());
}

#[test]
fn menu_choices_map_to_actions() {
    assert_eq!(parse_action("1"), Some(Action::Encrypt));
    assert_eq!(parse_action("2"), Some(Action::Decrypt));
    assert_eq!(parse_action("3"), Some(Action::Exit));
    assert_eq!(parse_action(""), None);
    assert_eq!(parse_action("4"), None);
    assert_eq!(parse_action("12"), None);
    assert_eq!(parse_action("encrypt"), None);
}

#[test]
fn unknown_versions_still_parse() {
    let mut f = sample_container();
    f.version = 7;
    let g = FcxFile::parse(&f.to_bytes()).expect("the version field is read, not branched on");
    assert_eq!(g.version, 7);
    assert_eq!(g.get_content(), f.get_content());
}

#[test]
fn extreme_rounds_survive_the_layout() {
    let mut f = sample_container();
    f.rounds = u32::MAX;
    let g = FcxFile::parse(&f.to_bytes()).expect("any iteration count fits the layout");
    assert_eq!(g.rounds, u32::MAX);
}

#[test]
fn reserializing_a_parsed_container_gives_the_same_bytes() {
    let b = sample_container().to_bytes();
    let g = FcxFile::parse(&b).expect("a serialized container parses");
    assert_eq!(g.to_bytes(), b);
}
