use aera_bridge::control::{
    calculate_predicted_grab_pos, dispatch, finish_tick, update_snapshot, DispatchError, Step,
    TickIssue, GRAB_DESCENT, SETTLE_MS,
};
use aera_bridge::model::{
    CameraObject, Command, Detection, HandObject, Properties, Slot, Telemetry, Vec2, Vec4,
};
use aera_bridge::protocol::{AeraProtocol, CommandError};
use aera_bridge::robot::Directive;

fn det(class: i64, x: i64, y: i64) -> Detection {
    Detection { class, position: Vec2::new(x, y) }
}

fn telemetry(digital_outputs: i32, x: i64, y: i64, z: i64, w: i64) -> Telemetry {
    Telemetry { digital_outputs, tool_pose: Vec4::new(x, y, z, w) }
}

fn unset() -> CameraObject {
    CameraObject::new()
}

#[test]
fn no_detection_leaves_all_slots_unset() {
    let mut p = Properties::new();
    update_snapshot(&mut p, &[], &telemetry(0, 240, 0, 0, 45));
    assert_eq!(p.co1, unset());
    assert_eq!(p.co2, unset());
    assert_eq!(p.co3, unset());
    assert_eq!(p.h.holding, None);
}

#[test]
fn detections_fill_slots_in_order() {
    for n in 1..=3usize {
        let all = [det(0, 100, 120), det(1, 150, 160), det(2, 10, 20)];
        let mut p = Properties::new();
        update_snapshot(&mut p, &all[..n], &telemetry(0, 240, 0, 0, 45));
        let slots = [p.co1, p.co2, p.co3];
        for k in 0..3 {
            if k < n {
                assert_eq!(slots[k].class, all[k].class);
                assert_eq!(slots[k].position, all[k].position);
            } else {
                assert_eq!(slots[k].class, -1);
                assert_eq!(slots[k].position, Vec2::new(-1, -1));
            }
        }
    }
}

#[test]
fn fourth_detection_is_dropped() {
    let all = [det(0, 1, 2), det(1, 3, 4), det(2, 5, 6), det(3, 7, 8)];
    let mut p = Properties::new();
    update_snapshot(&mut p, &all, &telemetry(0, 0, 0, 0, 0));
    assert_eq!(p.co1.class, 0);
    assert_eq!(p.co2.class, 1);
    assert_eq!(p.co3.class, 2);
    assert_eq!(p.co3.position, Vec2::new(5, 6));
}

#[test]
fn stale_slot_is_reset_when_object_disappears() {
    let mut p = Properties::new();
    update_snapshot(&mut p, &[det(0, 100, 120), det(1, 5, 5)], &telemetry(0, 0, 0, 0, 0));
    update_snapshot(&mut p, &[det(4, 7, 9)], &telemetry(0, 0, 0, 0, 0));
    assert_eq!(p.co1.class, 4);
    assert_eq!(p.co2, unset());
}

#[test]
fn predicted_grab_pos_at_reference_pixel_is_hand_xy() {
    let r = calculate_predicted_grab_pos(&Vec4::new(240, 0, 0, 45), &Vec2::new(148, 171));
    assert_eq!(r, Vec4::new(240, 0, -140, 45));
}

#[test]
fn predicted_grab_pos_scales_columns() {
    // 47 pixels left of the reference column are 40 mm along y.
    let r = calculate_predicted_grab_pos(&Vec4::new(240, 10, 0, 45), &Vec2::new(101, 121));
    assert_eq!(r, Vec4::new(240 + 50, 10 + 40, -140, 45));
    // Offsets are truncated toward zero on both sides.
    let r = calculate_predicted_grab_pos(&Vec4::new(0, 0, 0, 0), &Vec2::new(158, 171));
    assert_eq!(r.y, -8);
    let r = calculate_predicted_grab_pos(&Vec4::new(0, 0, 0, 0), &Vec2::new(138, 171));
    assert_eq!(r.y, 8);
}

#[test]
fn end_to_end_scenario_prediction() {
    let mut p = Properties::new();
    update_snapshot(&mut p, &[det(0, 148, 171)], &telemetry(0, 240, 0, 0, 45));
    assert_eq!(p.h.position, Vec4::new(240, 0, 0, 45));
    assert_eq!(p.co1.class, 0);
    assert_eq!(p.co1.predicted_grab_pos, Vec4::new(240, 0, -140, 45));
    assert_eq!(p.co2.predicted_grab_pos, Vec4::new(-1, -1, -1, -1));
}

#[test]
fn holding_inferred_when_gripper_closed_and_nothing_seen() {
    let mut p = Properties::new();
    update_snapshot(&mut p, &[], &telemetry(0b100, 240, 0, -137, 45));
    assert_eq!(p.h.holding, Some(Slot::Co1));
    assert_eq!(p.co1.predicted_grab_pos, Vec4::new(240, 0, -137, 45));
}

#[test]
fn holding_not_inferred_when_something_seen() {
    let mut p = Properties::new();
    update_snapshot(&mut p, &[det(0, 1, 1)], &telemetry(0b100, 0, 0, 0, 0));
    assert_eq!(p.h.holding, None);
    let mut q = Properties::new();
    update_snapshot(&mut q, &[], &telemetry(0b011, 0, 0, 0, 0));
    assert_eq!(q.h.holding, None);
}

#[test]
fn held_slot_is_not_overwritten_and_follows_hand() {
    let mut p = Properties::new();
    update_snapshot(&mut p, &[], &telemetry(0b100, 240, 0, 0, 45));
    update_snapshot(&mut p, &[det(5, 10, 20), det(6, 30, 40), det(7, 50, 60)], &telemetry(0, 250, 5, 0, 45));
    assert_eq!(p.h.holding, Some(Slot::Co1));
    assert_eq!(p.co1.class, -1);
    assert_eq!(p.co1.predicted_grab_pos, Vec4::new(250, 5, 0, 45));
    assert_eq!(p.co2.class, 5);
    assert_eq!(p.co3.class, 6);
}

#[test]
fn holding_survives_until_release() {
    let mut p = Properties::new();
    update_snapshot(&mut p, &[], &telemetry(0b100, 0, 0, 0, 0));
    update_snapshot(&mut p, &[det(1, 2, 3)], &telemetry(0, 0, 0, 0, 0));
    assert_eq!(p.h.holding, Some(Slot::Co1));
    let steps = dispatch(&mut p, &Command::Grab).unwrap();
    assert_eq!(steps.len(), 3);
    assert_eq!(p.h.holding, Some(Slot::Co1));
    let steps = dispatch(&mut p, &Command::Release).unwrap();
    assert_eq!(
        steps,
        vec![Step { directive: Directive::SetDo { index: 3, status: false }, settle_ms: 0 }]
    );
    assert_eq!(p.h.holding, None);
}

#[test]
fn grab_sequence_descends_closes_and_returns() {
    let mut p = Properties::new();
    p.h = HandObject { position: Vec4::new(240, 10, 20, 45), holding: None };
    let steps = dispatch(&mut p, &Command::Grab).unwrap();
    assert_eq!(GRAB_DESCENT, 137);
    assert_eq!(
        steps,
        vec![
            Step {
                directive: Directive::MovJ { x: 240, y: 10, z: 20 - 137, r: 45 },
                settle_ms: SETTLE_MS,
            },
            Step { directive: Directive::SetDo { index: 3, status: true }, settle_ms: SETTLE_MS },
            Step { directive: Directive::MovJ { x: 240, y: 10, z: 20, r: 45 }, settle_ms: 0 },
        ]
    );
    assert_eq!(SETTLE_MS, 1000);
}

#[test]
fn moves_and_enable_dispatch() {
    let mut p = Properties::new();
    p.h.position = Vec4::new(100, 200, 300, 45);
    let s = dispatch(&mut p, &Command::MovJ(1, 2, 3, 4)).unwrap();
    assert_eq!(s, vec![Step { directive: Directive::MovJ { x: 1, y: 2, z: 3, r: 4 }, settle_ms: 0 }]);
    let s = dispatch(&mut p, &Command::Move(1, -2, 3, -4)).unwrap();
    assert_eq!(s, vec![Step { directive: Directive::MovJ { x: 101, y: 198, z: 303, r: 41 }, settle_ms: 0 }]);
    let s = dispatch(&mut p, &Command::EnableRobot).unwrap();
    assert_eq!(s, vec![Step { directive: Directive::EnableRobot, settle_ms: 0 }]);
}

#[test]
fn relative_move_out_of_range_is_refused() {
    let mut p = Properties::new();
    p.h.position = Vec4::new(100, 0, 0, 0);
    assert_eq!(
        dispatch(&mut p, &Command::Move(i64::MAX, 0, 0, 0)),
        Err(DispatchError::MoveOutOfRange)
    );
}

#[test]
fn timestamp_advances_every_tick() {
    let mut link = AeraProtocol::new();
    let mut p = Properties::new();
    assert_eq!(link.timestamp(), 0);
    let r = finish_tick(&mut link, &mut p, None);
    assert_eq!(r, Err(TickIssue::NoCommand));
    assert_eq!(link.timestamp(), 100);
    let r = finish_tick(&mut link, &mut p, Some(Err(CommandError::EmptyDataMessage)));
    assert_eq!(r, Err(TickIssue::BadCommand(CommandError::EmptyDataMessage)));
    assert_eq!(link.timestamp(), 200);
    let r = finish_tick(&mut link, &mut p, Some(Ok(Command::EnableRobot)));
    assert_eq!(r, Ok(vec![Step { directive: Directive::EnableRobot, settle_ms: 0 }]));
    assert_eq!(link.timestamp(), 300);
    link.increase_timestamp();
    assert_eq!(link.timestamp(), 400);
}

#[test]
fn timed_out_wait_dispatches_nothing() {
    let mut link = AeraProtocol::new();
    let mut p = Properties::new();
    update_snapshot(&mut p, &[], &telemetry(0b100, 1, 2, 3, 4));
    let before = p;
    assert_eq!(finish_tick(&mut link, &mut p, None), Err(TickIssue::NoCommand));
    assert_eq!(p, before);
}

#[test]
fn undispatchable_and_undecodable_ticks() {
    let mut link = AeraProtocol::new();
    let mut p = Properties::new();
    p.h.position = Vec4::new(0, 0, -5, 0);
    let r = finish_tick(&mut link, &mut p, Some(Ok(Command::Move(0, 0, i64::MIN, 0))));
    assert_eq!(r, Err(TickIssue::Undispatchable(DispatchError::MoveOutOfRange)));
    let r = finish_tick(&mut link, &mut p, Some(Err(CommandError::Undecodable)));
    assert_eq!(r, Err(TickIssue::BadCommand(CommandError::Undecodable)));
    assert_eq!(link.timestamp(), 200);
}

#[test]
fn release_through_tick_clears_holding() {
    let mut link = AeraProtocol::new();
    let mut p = Properties::new();
    update_snapshot(&mut p, &[], &telemetry(0b100, 0, 0, 0, 0));
    assert_eq!(p.h.holding, Some(Slot::Co1));
    let r = finish_tick(&mut link, &mut p, Some(Ok(Command::Release))).unwrap();
    assert_eq!(r[0].directive, Directive::SetDo { index: 3, status: false });
    assert_eq!(p.h.holding, None);
}

#[test]
fn holding_stays_on_its_slot() {
    let mut p = Properties::new();
    p.h.holding = Some(Slot::Co2);
    update_snapshot(&mut p, &[], &telemetry(0b100, 0, 0, 0, 0));
    assert_eq!(p.h.holding, Some(Slot::Co2));
    update_snapshot(&mut p, &[det(1, 2, 3)], &telemetry(0, 0, 0, 0, 0));
    assert_eq!(p.h.holding, Some(Slot::Co2));
    assert_eq!(p.co1.class, 1);
}
