use run_splitter::decode::{component_offset, decode_stage, text_len};
use run_splitter::stage::{StageID, STAGE_COUNT};

fn path(s: &str) -> Vec<u8> {
    let mut v = s.as_bytes().to_vec();
    v.push(0);
    v.extend_from_slice(b"junk/9_0");
    v
}

#[test]
fn decodes_trailing_component() {
    assert_eq!(decode_stage(&path("levels/story/2_3A"), None), StageID::Chapter2_1);
    assert_eq!(decode_stage(&path("a/b/13_41"), None), StageID::Chapter10_6);
    assert_eq!(decode_stage(&path("x/1_5"), Some(StageID::Chapter9_1)), StageID::Chapter1_2);
}

#[test]
fn decode_same_string_twice_gives_same_stage() {
    let p = path("game/3_51");
    let a = decode_stage(&p, None);
    let b = decode_stage(&p, Some(a));
    assert_eq!(a, StageID::Chapter3_6);
    assert_eq!(a, b);
}

#[test]
fn unknown_string_keeps_previous_stage() {
    assert_eq!(decode_stage(&path("game/menu"), Some(StageID::Chapter4_4)), StageID::Chapter4_4);
    assert_eq!(decode_stage(&path("game/menu"), None), StageID::Chapter1_1);
    assert_eq!(decode_stage(&path(""), Some(StageID::Chapter7_2)), StageID::Chapter7_2);
    // Without a separator only the last byte is looked at.
    assert_eq!(decode_stage(&path("1_1"), Some(StageID::Chapter5_5)), StageID::Chapter5_5);
}

#[test]
fn text_stops_at_nul() {
    assert_eq!(text_len(b"ab\0cd"), 2);
    assert_eq!(text_len(b"abc"), 3);
    assert_eq!(component_offset(b"a/bc/de", 7), 5);
    assert_eq!(component_offset(b"abc", 3), 2);
    assert_eq!(component_offset(b"", 0), 0);
}

#[test]
fn every_stage_key_decodes_to_its_stage() {
    for i in 0..STAGE_COUNT {
        let s = StageID::from_index(i);
        assert_eq!(s.index(), i);
        let mut p = b"stages/".to_vec();
        p.extend_from_slice(&s.key());
        p.push(0);
        assert_eq!(decode_stage(&p, None), s);
    }
}
