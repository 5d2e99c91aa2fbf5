//! End-to-end parsing tests: header construction, frame construction,
//! defaulting, error locality, uniqueness, idempotence, and the codec.

use lf2_parse::{
    decoded_text, needs_decode, Bdy, BdyKind, Decimal, Element, Error, Frame, FrameNumber,
    FrameNumberNext, ObjectData, Pic, State, Wait,
};

/// A header block with three sprite sheets and all movement constants.
fn header_text() -> String {
    String::from(
        "<bmp_begin>\n\
         name: Frozen\n\
         head: frozen\\frozen_f.bmp\n\
         small: frozen\\frozen_s.bmp\n\
         file(0-69): frozen_0.bmp  w: 79  h: 79  row: 10  col: 7\n\
         file(70-139): frozen_1.bmp  w: 79  h: 79  row: 10  col: 7\n\
         file(140-209): frozen_2.bmp  w: 79  h: 79  row: 10  col: 7\n\
         walking_frame_rate 3\n\
         walking_speed 5.0\n\
         walking_speedz 2.0\n\
         running_frame_rate 3\n\
         running_speed 8.0\n\
         running_speedz 1.3\n\
         heavy_walking_speed 3.0\n\
         heavy_walking_speedz 1.5\n\
         heavy_running_speed 5.0\n\
         heavy_running_speedz 0.8\n\
         jump_height -16.3\n\
         jump_distance 8.0\n\
         jump_distancez 3.0\n\
         dash_height -10.0\n\
         dash_distance 15.0\n\
         dash_distancez 3.75\n\
         rowing_height -2.0\n\
         rowing_distance 5.0\n\
         <bmp_end>\n",
    )
}

fn object_text(frames: &str) -> String {
    let mut s = header_text();
    s.push_str(frames);
    s
}

#[test]
fn header_scenario() {
    let text = object_text("");
    let od = ObjectData::try_from(&text).unwrap();
    assert_eq!(od.header.name, "Frozen");
    assert_eq!(od.header.head, "frozen\\frozen_f.bmp");
    assert_eq!(od.header.small, "frozen\\frozen_s.bmp");
    assert_eq!(od.header.sprite_files.len(), 3);
    assert_eq!(od.header.sprite_files[0].path, "frozen_0.bmp");
    assert_eq!(od.header.sprite_files[0].w, 79);
    assert_eq!(od.header.sprite_files[0].h, 79);
    assert_eq!(od.header.sprite_files[0].row, 10);
    assert_eq!(od.header.sprite_files[0].col, 7);
    assert_eq!(od.header.walking_frame_rate, 3);
    assert_eq!(
        od.header.walking_speed,
        Decimal { neg: false, units: 5, frac: 0, frac_len: 1 }
    );
    assert_eq!(
        od.header.jump_height,
        Decimal { neg: true, units: 16, frac: 3, frac_len: 1 }
    );
    assert_eq!(
        od.header.dash_distance_z,
        Decimal { neg: false, units: 3, frac: 75, frac_len: 2 }
    );
    assert!(od.frames.0.is_empty());
}

#[test]
fn frame_scenario() {
    let text = object_text(
        "<frame> 0 Stand\n\
         \x20 pic: 1  state: 0  next: 1  wait: 3\n\
         \x20 bdy:\n\
         \x20    kind: 0  x: 0  y: 0  w: 30  h: 60\n\
         \x20 bdy_end:\n\
         <frame_end>\n",
    );
    let od = ObjectData::try_from(&text).unwrap();
    assert_eq!(od.frames.0.len(), 1);
    let frame: &Frame = &od.frames.0[0];
    assert_eq!(frame.number, FrameNumber(0));
    assert_eq!(frame.name, "Stand");
    assert_eq!(frame.pic, Pic(1));
    assert_eq!(frame.state, State::Standing);
    assert_eq!(frame.next_frame, FrameNumberNext(1));
    assert_eq!(frame.wait, Wait(3));
    assert_eq!(
        frame.elements,
        vec![Element::Bdy(Bdy { kind: BdyKind::Normal, x: 0, y: 0, w: 30, h: 60 })]
    );
}

#[test]
fn duplicate_frame_numbers_are_fatal() {
    let text = object_text(
        "<frame> 5 first\n  pic: 0  wait: 1\n<frame_end>\n\
         <frame> 5 second\n  pic: 1  wait: 2\n<frame_end>\n",
    );
    match ObjectData::try_from(&text) {
        Err(Error::FrameNumberNonUnique { frame_number, occurrences }) => {
            assert_eq!(frame_number, FrameNumber(5));
            assert_eq!(occurrences.len(), 2);
            assert!(occurrences[0].text.contains("first"));
            assert!(occurrences[1].text.contains("second"));
            assert!(occurrences[0].line < occurrences[1].line);
        }
        other => panic!("expected a duplicate frame number error, got {:?}", other),
    }
}

#[test]
fn duplicate_error_lists_every_occurrence() {
    let text = object_text(
        "<frame> 5 one\n  pic: 0\n<frame_end>\n\
         <frame> 6 two\n  pic: 0\n<frame_end>\n\
         <frame> 5 three\n  pic: 0\n<frame_end>\n\
         <frame> 5 four\n  pic: 0\n<frame_end>\n",
    );
    match ObjectData::try_from(&text) {
        Err(Error::FrameNumberNonUnique { frame_number, occurrences }) => {
            assert_eq!(frame_number, FrameNumber(5));
            assert_eq!(occurrences.len(), 3);
            let msg = Error::FrameNumberNonUnique { frame_number, occurrences }.message();
            assert!(msg.contains("`5` is used multiple times"));
        }
        other => panic!("expected a duplicate frame number error, got {:?}", other),
    }
}

#[test]
fn distinct_frame_numbers_succeed() {
    let text = object_text(
        "<frame> 0 zero\n  pic: 0\n<frame_end>\n\
         <frame> 1 one\n  pic: 0\n<frame_end>\n\
         <frame> 2 two\n  pic: 0\n<frame_end>\n",
    );
    let od = ObjectData::try_from(&text).unwrap();
    assert_eq!(od.frames.0.len(), 3);
    assert_eq!(od.frames.0[2].number, FrameNumber(2));
}

#[test]
fn itr_z_width_defaults_to_13() {
    let text = object_text(
        "<frame> 0 hit\n\
         \x20 itr:\n\
         \x20    kind: 0  x: 5  y: 6  w: 7  h: 8\n\
         \x20 itr_end:\n\
         <frame_end>\n",
    );
    let od = ObjectData::try_from(&text).unwrap();
    match &od.frames.0[0].elements[0] {
        Element::Itr(itr) => {
            assert_eq!(itr.z_width, 13);
            assert_eq!(itr.x, 5);
        }
        other => panic!("expected an itr element, got {:?}", other),
    }
}

#[test]
fn itr_z_width_tag_overrides_default() {
    let text = object_text(
        "<frame> 0 hit\n\
         \x20 itr:\n\
         \x20    kind: 0  zwidth: 21\n\
         \x20 itr_end:\n\
         <frame_end>\n",
    );
    let od = ObjectData::try_from(&text).unwrap();
    match &od.frames.0[0].elements[0] {
        Element::Itr(itr) => assert_eq!(itr.z_width, 21),
        other => panic!("expected an itr element, got {:?}", other),
    }
}

#[test]
fn frame_wait_defaults_to_1() {
    let text = object_text("<frame> 0 idle\n  pic: 0\n<frame_end>\n");
    let od = ObjectData::try_from(&text).unwrap();
    assert_eq!(od.frames.0[0].wait, Wait(1));
}

#[test]
fn frame_wait_zero_reads_as_1() {
    let text = object_text("<frame> 0 idle\n  wait: 0\n<frame_end>\n");
    let od = ObjectData::try_from(&text).unwrap();
    assert_eq!(od.frames.0[0].wait, Wait(1));
}

#[test]
fn c_point_booleans_default_to_false() {
    let text = object_text(
        "<frame> 0 hold\n\
         \x20 cpoint:\n\
         \x20    kind: 1  x: 10  y: 20\n\
         \x20 cpoint_end:\n\
         <frame_end>\n",
    );
    let od = ObjectData::try_from(&text).unwrap();
    match &od.frames.0[0].elements[0] {
        Element::CPoint(cp) => {
            assert!(!cp.cover);
            assert!(!cp.dir_control);
            assert!(!cp.hurtable);
        }
        other => panic!("expected a cpoint element, got {:?}", other),
    }
}

#[test]
fn c_point_boolean_tags_read_nonzero_as_true() {
    let text = object_text(
        "<frame> 0 hold\n\
         \x20 cpoint:\n\
         \x20    kind: 1  cover: 11  dircontrol: 1  hurtable: 0\n\
         \x20 cpoint_end:\n\
         <frame_end>\n",
    );
    let od = ObjectData::try_from(&text).unwrap();
    match &od.frames.0[0].elements[0] {
        Element::CPoint(cp) => {
            assert!(cp.cover);
            assert!(cp.dir_control);
            assert!(!cp.hurtable);
        }
        other => panic!("expected a cpoint element, got {:?}", other),
    }
}

#[test]
fn error_locality_names_field_and_text() {
    let text = object_text(
        "<frame> 0 bad\n\
         \x20 bdy:\n\
         \x20    kind: 0  x: abc\n\
         \x20 bdy_end:\n\
         <frame_end>\n",
    );
    match ObjectData::try_from(&text) {
        Err(err) => {
            match &err {
                Error::ParseInt { field, value, .. } => {
                    assert_eq!(*field, "x");
                    assert_eq!(value.text, "abc");
                }
                other => panic!("expected an integer field error, got {:?}", other),
            }
            let msg = err.message();
            assert!(msg.contains("abc"));
            assert!(msg.contains("x"));
        }
        Ok(_) => panic!("expected a parse failure"),
    }
}

#[test]
fn parse_is_idempotent_on_one_text() {
    let text = object_text(
        "<frame> 0 Stand\n  pic: 1  wait: 3\n<frame_end>\n\
         <frame> 1 walk\n  pic: 2  wait: 2\n<frame_end>\n",
    );
    let first = ObjectData::try_from(&text).unwrap();
    let second = ObjectData::try_from(&text).unwrap();
    assert_eq!(first, second);
}

#[test]
fn surplus_text_is_reported_with_the_value() {
    let text = object_text("<frame> 0 idle\n  pic: 0\n<frame_end>\nleftover words\n");
    match ObjectData::try_from(&text) {
        Err(Error::ObjectDataSurplus { object_data, surplus }) => {
            assert_eq!(object_data.frames.0.len(), 1);
            assert!(surplus.text.contains("leftover"));
        }
        other => panic!("expected a surplus report, got {:?}", other),
    }
}

#[test]
fn empty_input_is_object_data_expected() {
    assert_eq!(ObjectData::try_from(""), Err(Error::ObjectDataExpected));
    assert_eq!(ObjectData::try_from("  \n \t "), Err(Error::ObjectDataExpected));
}

#[test]
fn missing_header_name_is_reported() {
    let text = "<bmp_begin>\nhead: a.bmp\nsmall: b.bmp\n<bmp_end>\n";
    match ObjectData::try_from(text) {
        Err(Error::BuilderFieldMissing { field }) => assert_eq!(field, "name"),
        other => panic!("expected a missing field error, got {:?}", other),
    }
}

#[test]
fn invalid_bdy_kind_code_is_reported() {
    let text = object_text(
        "<frame> 0 bad\n\
         \x20 bdy:\n\
         \x20    kind: 500\n\
         \x20 bdy_end:\n\
         <frame_end>\n",
    );
    match ObjectData::try_from(&text) {
        Err(Error::ParseBdyKind { value, .. }) => assert_eq!(value.text, "500"),
        other => panic!("expected a body kind error, got {:?}", other),
    }
}

#[test]
fn invalid_state_code_is_reported() {
    let text = object_text("<frame> 0 bad\n  state: 77\n<frame_end>\n");
    match ObjectData::try_from(&text) {
        Err(Error::StateParse { value, .. }) => assert_eq!(value.text, "77"),
        other => panic!("expected a state error, got {:?}", other),
    }
}

#[test]
fn unknown_frame_tag_is_skipped() {
    let text = object_text("<frame> 0 idle\n  pic: 4  sparkle: 9\n<frame_end>\n");
    let od = ObjectData::try_from(&text).unwrap();
    assert_eq!(od.frames.0[0].pic, Pic(4));
}

#[test]
fn sound_tag_is_kept() {
    let text = object_text("<frame> 0 idle\n  sound: data\\017.wav\n<frame_end>\n");
    let od = ObjectData::try_from(&text).unwrap();
    assert_eq!(od.frames.0[0].sound.as_deref(), Some("data\\017.wav"));
}

#[test]
fn out_of_range_integer_is_reported() {
    let text = object_text("<frame> 0 big\n  wait: 99999999999999999999\n<frame_end>\n");
    match ObjectData::try_from(&text) {
        Err(Error::ParseInt { field, .. }) => assert_eq!(field, "wait"),
        other => panic!("expected an integer range error, got {:?}", other),
    }
}

#[test]
fn negative_reaction_target_keeps_sign() {
    let text = object_text("<frame> 0 idle\n  hit_a: -20\n<frame_end>\n");
    let od = ObjectData::try_from(&text).unwrap();
    let target = od.frames.0[0].hit_a;
    assert_eq!(target, FrameNumberNext(-20));
    assert!(target.facing_switch());
    assert_eq!(target.abs(), FrameNumber(20));
}

#[test]
fn codec_transparency_on_dat_bytes() {
    let text = object_text("<frame> 0 idle\n  pic: 0\n<frame_end>\n");
    let encoded = lf2_codec::DataEncoder::encode(text.as_bytes()).unwrap();
    assert_ne!(encoded, text.as_bytes());
    let from_dat = decoded_text(&encoded, true).unwrap();
    let from_txt = decoded_text(text.as_bytes(), false).unwrap();
    assert_eq!(from_dat, from_txt);
    let od_dat = ObjectData::try_from(&from_dat).unwrap();
    let od_txt = ObjectData::try_from(&from_txt).unwrap();
    assert_eq!(od_dat, od_txt);
}

#[test]
fn dat_extension_selects_decoding() {
    assert!(needs_decode("frozen.dat"));
    assert!(!needs_decode("frozen.txt"));
    assert!(!needs_decode("dat"));
    assert!(!needs_decode(""));
}

#[test]
fn invalid_utf8_after_decode_is_reported() {
    let bytes: Vec<u8> = vec![0xff, 0xfe, 0x41];
    assert_eq!(decoded_text(&bytes, false), Err(Error::DecodedDataInvalidUtf8));
}

#[test]
fn invalid_movement_constant_is_reported_with_its_name() {
    let text = header_text().replace("walking_speed 5.0", "walking_speed fast");
    match ObjectData::try_from(&text) {
        Err(err) => {
            match &err {
                Error::ParseFloat { field, value, .. } => {
                    assert_eq!(*field, "walking_speed");
                    assert_eq!(value.text, "fast");
                }
                other => panic!("expected a decimal field error, got {:?}", other),
            }
            let msg = err.message();
            assert!(msg.contains("walking_speed"));
            assert!(msg.contains("fast"));
        }
        Ok(_) => panic!("expected a parse failure"),
    }
}

#[test]
fn o_point_and_w_point_parse() {
    let text = object_text(
        "<frame> 0 throw\n\
         \x20 opoint:\n\
         \x20    kind: 1  x: 40  y: 79  action: 50  dvx: 10  dvy: -4  oid: 210  facing: 21\n\
         \x20 opoint_end:\n\
         \x20 wpoint:\n\
         \x20    kind: 1  x: 24  y: 37  weaponact: 35  attacking: 2  dvx: 6  dvy: -3\n\
         \x20 wpoint_end:\n\
         <frame_end>\n",
    );
    let od = ObjectData::try_from(&text).unwrap();
    let elements = &od.frames.0[0].elements;
    assert_eq!(elements.len(), 2);
    match &elements[0] {
        Element::OPoint(op) => {
            assert_eq!(op.action, FrameNumberNext(50));
            assert_eq!(op.object_id.0, 210);
            assert_eq!(op.facing.count, 2);
        }
        other => panic!("expected an opoint element, got {:?}", other),
    }
    match &elements[1] {
        Element::WPoint(wp) => {
            assert_eq!(wp.weapon_act, FrameNumberNext(35));
            assert_eq!(wp.attacking.0, 2);
            assert_eq!(wp.d_vx, 6);
        }
        other => panic!("expected a wpoint element, got {:?}", other),
    }
}

#[test]
fn decimal_with_bare_point_is_rejected() {
    let text = header_text().replace("walking_speed 5.0", "walking_speed 5.");
    match ObjectData::try_from(&text) {
        Err(Error::ParseFloat { field, value, .. }) => {
            assert_eq!(field, "walking_speed");
            assert_eq!(value.text, "5.");
        }
        other => panic!("expected a decimal field error, got {:?}", other),
    }
}

#[test]
fn decimal_accepts_an_explicit_plus_sign() {
    let text = header_text().replace("walking_speed 5.0", "walking_speed +5.0");
    let od = ObjectData::try_from(&text).unwrap();
    assert_eq!(
        od.header.walking_speed,
        Decimal { neg: false, units: 5, frac: 0, frac_len: 1 }
    );
}

#[test]
fn field_error_message_gives_the_position() {
    let text = object_text(
        "<frame> 0 bad\n\
         \x20 bdy:\n\
         \x20    kind: 0  x: abc\n\
         \x20 bdy_end:\n\
         <frame_end>\n",
    );
    match ObjectData::try_from(&text) {
        Err(err) => {
            let (line, col) = match &err {
                Error::ParseInt { value, .. } => (value.line, value.col),
                other => panic!("expected an integer field error, got {:?}", other),
            };
            let msg = err.message();
            let pos = format!("{}:{}", line, col);
            assert!(msg.contains(&pos));
        }
        Ok(_) => panic!("expected a parse failure"),
    }
}

#[test]
fn duplicate_message_locates_every_occurrence() {
    let text = object_text(
        "<frame> 5 first\n  pic: 0\n<frame_end>\n\
         <frame> 5 second\n  pic: 0\n<frame_end>\n",
    );
    match ObjectData::try_from(&text) {
        Err(err) => {
            let occs = match &err {
                Error::FrameNumberNonUnique { occurrences, .. } => occurrences
                    .iter()
                    .map(|o| (o.text.clone(), o.line, o.col))
                    .collect::<Vec<_>>(),
                other => panic!("expected a duplicate frame number error, got {:?}", other),
            };
            assert_eq!(occs.len(), 2);
            let msg = err.message();
            for (text, line, col) in occs {
                assert!(msg.contains(&text));
                assert!(msg.contains(&format!("{}:{}", line, col)));
            }
        }
        Ok(_) => panic!("expected a parse failure"),
    }
}
