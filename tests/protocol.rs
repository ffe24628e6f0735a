use aera_bridge::bytes::{frame, frame_length, le_bytes_to_i64, le_bytes_to_u64};
use aera_bridge::model::{Command, Properties, Slot, Vec2, Vec4};
use aera_bridge::protocol::{
    check_start_message, AeraProtocol, CommandError, DataType, MessageType, ProtoVariable,
    StartError, VariableDescription,
};
use aera_bridge::registry::CommIds;
use aera_bridge::robot::{push_decimal, Channel, Directive};

fn sample() -> Properties {
    let mut p = Properties::new();
    p.co1.position = Vec2::new(148, 171);
    p.co1.class = 0;
    p.co1.predicted_grab_pos = Vec4::new(240, 0, -140, 45);
    p.co2.position = Vec2::new(-5, 7);
    p.co2.class = 3;
    p.co3.predicted_grab_pos = Vec4::new(i64::MIN, i64::MAX, 0, -1);
    p.h.position = Vec4::new(240, -3, 12, 45);
    p.h.holding = Some(Slot::Co2);
    p
}

fn var(id: i32, data: Vec<u8>) -> ProtoVariable {
    ProtoVariable {
        meta_data: Some(VariableDescription {
            entity_id: 1,
            id,
            data_type: DataType::Int64,
            dimensions: vec![4],
            opcode_string_handle: "vec4".to_string(),
        }),
        data,
    }
}

fn words(v: &[i64]) -> Vec<u8> {
    v.iter().flat_map(|x| x.to_le_bytes()).collect()
}

#[test]
fn registry_assigns_ids_in_order() {
    let ids = CommIds::from_list(&["h", "c", "co1"]);
    assert_eq!(ids.get("h"), 1);
    assert_eq!(ids.get("co1"), 3);
    assert!(ids.contains("c"));
    assert!(!ids.contains("co2"));
    assert_eq!(ids.get_key(2), Some("c"));
    assert_eq!(ids.get_key(0), None);
    assert_eq!(ids.get_key(4), None);
    assert!(!CommIds::new().contains("h"));
}

#[test]
fn registry_keeps_last_id_of_repeated_name() {
    let ids = CommIds::from_list(&["a", "b", "a"]);
    assert_eq!(ids.get("a"), 3);
    assert_eq!(ids.get_key(1), None);
    assert_eq!(ids.get_key(3), Some("a"));
}

#[test]
fn snapshot_round_trip() {
    let link = AeraProtocol::new();
    let p = sample();
    let vars = link.properties_variables(&p, None);
    assert_eq!(vars.len(), 11);
    let q = link.snapshot_from_variables(&vars).unwrap();
    assert_eq!(q.co1, p.co1);
    assert_eq!(q.co2, p.co2);
    assert_eq!(q.co3.predicted_grab_pos, p.co3.predicted_grab_pos);
    assert_eq!(q.h, p.h);
}

#[test]
fn snapshot_round_trip_without_holding_and_with_echo() {
    let link = AeraProtocol::new();
    let mut p = sample();
    p.h.holding = None;
    let vars = link.properties_variables(&p, Some(&Command::Move(1, 2, 3, 4)));
    assert_eq!(vars.len(), 12);
    assert_eq!(vars[10].data, (-1i64).to_le_bytes().to_vec());
    let q = link.snapshot_from_variables(&vars).unwrap();
    assert_eq!(q.h, p.h);
    assert_eq!(link.command_from_variables(Some(&vars[11..])), Ok(Command::Move(1, 2, 3, 4)));
}

#[test]
fn data_message_layout() {
    let link = AeraProtocol::new();
    let vars = link.properties_variables(&sample(), None);
    let m = vars[0].meta_data.as_ref().unwrap();
    assert_eq!((m.entity_id, m.id, m.data_type), (3, 6, DataType::Int64));
    assert_eq!(m.dimensions, vec![2]);
    assert_eq!(m.opcode_string_handle, "vec2");
    assert_eq!(vars[0].data, words(&[148, 171]));
    let m = vars[4].meta_data.as_ref().unwrap();
    assert_eq!((m.entity_id, m.id), (4, 15));
    let m = vars[10].meta_data.as_ref().unwrap();
    assert_eq!((m.entity_id, m.id, m.data_type), (1, 7, DataType::CommunicationId));
    assert_eq!(vars[10].data, 4i64.to_le_bytes().to_vec());
}

#[test]
fn malformed_snapshot_is_refused() {
    let link = AeraProtocol::new();
    let mut vars = link.properties_variables(&sample(), None);
    vars[10].data = 9i64.to_le_bytes().to_vec();
    assert!(link.snapshot_from_variables(&vars).is_none());
    let vars = link.properties_variables(&sample(), None);
    assert!(link.snapshot_from_variables(&vars[..10]).is_none());
}

#[test]
fn commands_decode() {
    let link = AeraProtocol::new();
    let v = [var(10, words(&[240, -5, 0, 45]))];
    assert_eq!(link.command_from_variables(Some(&v)), Ok(Command::MovJ(240, -5, 0, 45)));
    let v = [var(11, words(&[1, 2, 3, 4, 99]))];
    assert_eq!(link.command_from_variables(Some(&v)), Ok(Command::Move(1, 2, 3, 4)));
    assert_eq!(link.command_from_variables(Some(&[var(13, vec![])])), Ok(Command::Grab));
    assert_eq!(link.command_from_variables(Some(&[var(14, vec![])])), Ok(Command::Release));
    assert_eq!(link.command_from_variables(Some(&[var(12, vec![])])), Ok(Command::EnableRobot));
}

#[test]
fn command_errors() {
    let link = AeraProtocol::new();
    assert_eq!(link.command_from_variables(None), Err(CommandError::NotDataMessage));
    assert_eq!(link.command_from_variables(Some(&[])), Err(CommandError::EmptyDataMessage));
    let bare = [ProtoVariable { meta_data: None, data: vec![] }];
    assert_eq!(link.command_from_variables(Some(&bare)), Err(CommandError::MissingMetadata));
    assert_eq!(
        link.command_from_variables(Some(&[var(16, vec![])])),
        Err(CommandError::UnsupportedId(16))
    );
    assert_eq!(
        link.command_from_variables(Some(&[var(0, vec![])])),
        Err(CommandError::UnsupportedId(0))
    );
    assert_eq!(
        link.command_from_variables(Some(&[var(6, vec![])])),
        Err(CommandError::UnhandledId(6))
    );
    assert_eq!(
        link.command_from_variables(Some(&[var(10, words(&[1, 2, 3]))])),
        Err(CommandError::ShortPayload(10))
    );
}

#[test]
fn echoed_commands_read_back() {
    let link = AeraProtocol::new();
    for c in [
        Command::MovJ(-1, 2, -3, 4),
        Command::Move(5, 6, 7, 8),
        Command::Grab,
        Command::Release,
        Command::EnableRobot,
    ] {
        let v = [link.command_proprty(&c)];
        assert_eq!(link.command_from_variables(Some(&v)), Ok(c));
    }
}

#[test]
fn setup_message_lists_schema() {
    let link = AeraProtocol::new();
    let s = link.setup_message();
    let ent: Vec<(String, i32)> =
        ["h", "c", "co1", "co2", "co3"].iter().zip(1..).map(|(n, i)| (n.to_string(), i)).collect();
    assert_eq!(s.entities, ent);
    assert_eq!(s.objects[4], ("predicted_grab_pos".to_string(), 15));
    assert_eq!(s.commands[2], ("grab".to_string(), 13));
    assert_eq!(s.command_descriptions.len(), 5);
    let d = &s.command_descriptions[0];
    assert_eq!(d.name, "mov_j");
    assert_eq!((d.description.id, d.description.data_type), (10, DataType::Int64));
    assert_eq!(d.description.dimensions, vec![4]);
    let d = &s.command_descriptions[3];
    assert_eq!(d.name, "release");
    assert_eq!(d.description.dimensions, vec![0]);
    assert_eq!(d.description.opcode_string_handle, "");
}

#[test]
fn start_message_check() {
    assert_eq!(check_start_message(Some(MessageType::Start)), Ok(()));
    assert_eq!(check_start_message(Some(MessageType::Data)), Err(StartError::WrongMessage));
    assert_eq!(check_start_message(None), Err(StartError::TimedOut));
}

#[test]
fn framing_prefixes_length() {
    let f = frame(&[7, 8, 9]);
    assert_eq!(f, vec![3, 0, 0, 0, 0, 0, 0, 0, 7, 8, 9]);
    assert_eq!(frame_length(&f[..8]), 3);
    let f = frame(&vec![1u8; 300]);
    assert_eq!(frame_length(&f[..8]), 300);
    assert_eq!(f.len(), 308);
}

#[test]
fn little_endian_scalars() {
    assert_eq!(le_bytes_to_i64(&(-2i64).to_le_bytes()), -2);
    assert_eq!(le_bytes_to_u64(&[1, 1, 0, 0, 0, 0, 0, 0]), 257);
}

#[test]
fn directive_text() {
    let t = |d: Directive| String::from_utf8(d.to_bytes()).unwrap();
    assert_eq!(t(Directive::EnableRobot), "EnableRobot()\n");
    assert_eq!(t(Directive::DisableRobot), "DisableRobot()\n");
    assert_eq!(t(Directive::SetDo { index: 3, status: true }), "DO(3, 1)\n");
    assert_eq!(t(Directive::SetDo { index: 3, status: false }), "DO(3, 0)\n");
    assert_eq!(t(Directive::MovJ { x: 240, y: 0, z: -137, r: 45 }), "MovJ(240, 0, -137, 45)\n");
    assert_eq!(Directive::MovJ { x: 0, y: 0, z: 0, r: 0 }.channel(), Channel::Motion);
    assert_eq!(Directive::EnableRobot.channel(), Channel::Dashboard);
}

#[test]
fn decimal_extremes() {
    let mut out = Vec::new();
    push_decimal(&mut out, i64::MIN);
    assert_eq!(String::from_utf8(out).unwrap(), i64::MIN.to_string());
    let mut out = Vec::new();
    push_decimal(&mut out, i64::MAX);
    assert_eq!(String::from_utf8(out).unwrap(), i64::MAX.to_string());
}

#[test]
fn grab_is_described_by_id_alone() {
    let link = AeraProtocol::new();
    let s = link.setup_message();
    let d = &s.command_descriptions[2];
    assert_eq!(d.name, "grab");
    assert_eq!((d.description.id, d.description.data_type), (13, DataType::CommunicationId));
    assert_eq!(d.description.dimensions, vec![0]);
    assert_eq!(d.description.opcode_string_handle, "");
}

#[test]
fn echoed_commands_match_setup_descriptions() {
    let link = AeraProtocol::new();
    let s = link.setup_message();
    let cases = [
        (Command::MovJ(1, 2, 3, 4), 0),
        (Command::Move(1, 2, 3, 4), 1),
        (Command::Grab, 2),
        (Command::Release, 3),
        (Command::EnableRobot, 4),
    ];
    for (c, k) in cases {
        let v = link.command_proprty(&c);
        let m = v.meta_data.as_ref().unwrap();
        let d = &s.command_descriptions[k].description;
        assert_eq!((m.entity_id, m.id, m.data_type), (d.entity_id, d.id, d.data_type));
        assert_eq!(m.dimensions, d.dimensions);
        assert_eq!(m.opcode_string_handle, d.opcode_string_handle);
        assert_eq!(v.data.len() as u64, 8 * m.dimensions[0]);
    }
}
