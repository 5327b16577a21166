use botshop::config::Config;
use botshop::destroy::{
    game_lines, route_interaction, typing_delays, CleanupStep, DestroyKind, InteractionRoute,
};

#[test]
fn custom_ids_round_trip() {
    for k in [DestroyKind::Clothes, DestroyKind::Materials] {
        assert_eq!(DestroyKind::from_custom_id(k.custom_id()), Some(k));
    }
    assert_eq!(DestroyKind::Clothes.custom_id(), "destroy_type1");
    assert_eq!(DestroyKind::Materials.custom_id(), "destroy_type2");
    assert_eq!(DestroyKind::from_custom_id("destroy_type3"), None);
}

#[test]
fn kinds_pick_their_commands() {
    let c = Config::from_shop_data(vec![]);
    assert_eq!(DestroyKind::Clothes.commands(&c).len(), 38);
    assert_eq!(DestroyKind::Materials.commands(&c).len(), 44);
    assert_eq!(DestroyKind::Clothes.auto_period_secs(), 1800);
    assert_eq!(DestroyKind::Materials.auto_period_secs(), 7200);
    assert!(DestroyKind::Materials.start_announcement().starts_with("#Announce "));
    assert!(DestroyKind::Clothes.auto_end_announcement().starts_with("#Announce "));
}

#[test]
fn routing() {
    assert_eq!(route_interaction(false, "destroy_type1"), InteractionRoute::Paused);
    assert_eq!(route_interaction(false, "apple"), InteractionRoute::Paused);
    assert_eq!(route_interaction(true, "destroy_type2"), InteractionRoute::Destroy(DestroyKind::Materials));
    assert_eq!(route_interaction(true, "apple"), InteractionRoute::Shop);
}

#[test]
fn delays() {
    assert_eq!(typing_delays("destroy"), (5, 3));
    assert_eq!(typing_delays("normal"), (3, 3));
}

#[test]
fn console_lines_are_trimmed_and_not_blank() {
    let cmds = vec!["  #A 1 ".to_string(), "   ".to_string(), "".to_string(), "#B\n".to_string()];
    assert_eq!(game_lines(&cmds), vec!["#A 1".to_string(), "#B".to_string()]);
}

#[test]
fn scheduled_clothes_run_waits_half_an_hour_then_works_under_the_lock() {
    let c = Config::from_shop_data(vec![]);
    let steps = DestroyKind::Clothes.cleanup_steps(&c, true);
    assert_eq!(steps.len(), 7);
    assert_eq!(steps[0], CleanupStep::Sleep { secs: 1800 });
    assert_eq!(steps[1], CleanupStep::TakeLock);
    assert_eq!(
        steps[2],
        CleanupStep::Send {
            lines: vec!["#Announce บอทกำลังลบชุด/เสื้อผ้าอัตโนมัติ บอทหยุดชั่วคราว!".to_string()]
        }
    );
    assert_eq!(steps[3], CleanupStep::Sleep { secs: 1 });
    assert_eq!(steps[4], CleanupStep::Send { lines: c.destroy_commands_type1.clone() });
    assert_eq!(
        steps[5],
        CleanupStep::Send {
            lines: vec!["#Announce บอทลบชุด/เสื้อผ้าอัตโนมัติสำเร็จ สามารถใช้บอทต่อได้!".to_string()]
        }
    );
    assert_eq!(steps[6], CleanupStep::ReleaseLock);
}

#[test]
fn scheduled_materials_run_waits_two_hours() {
    let c = Config::from_shop_data(vec![]);
    let steps = DestroyKind::Materials.cleanup_steps(&c, true);
    assert_eq!(steps.len(), 7);
    assert_eq!(steps[0], CleanupStep::Sleep { secs: 7200 });
    assert_eq!(
        steps[2],
        CleanupStep::Send { lines: vec!["#Announce บอทกำลังลบวัสดุก่อสร้าง บอทหยุดชั่วคราว!".to_string()] }
    );
    assert_eq!(steps[4], CleanupStep::Send { lines: c.destroy_commands_type2.clone() });
    assert_eq!(
        steps[5],
        CleanupStep::Send { lines: vec!["#Announce บอทลบวัสดุก่อสร้าง สามารถใช้บอทต่อได้!".to_string()] }
    );
    assert_eq!(steps[6], CleanupStep::ReleaseLock);
}

#[test]
fn manual_run_starts_with_the_lock() {
    let c = Config::from_shop_data(vec![]);
    let steps = DestroyKind::Materials.cleanup_steps(&c, false);
    assert_eq!(
        steps,
        vec![
            CleanupStep::TakeLock,
            CleanupStep::Send {
                lines: vec!["#Announce บอทกำลังลบวัสดุก่อสร้าง/เศษไม้ บอทหยุดชั่วคราว!".to_string()]
            },
            CleanupStep::Sleep { secs: 1 },
            CleanupStep::Send { lines: c.destroy_commands_type2.clone() },
            CleanupStep::Send {
                lines: vec!["#Announce บอทลบวัสดุก่อสร้าง/เศษไม้สำเร็จ สามารถใช้บอทต่อได้!".to_string()]
            },
            CleanupStep::ReleaseLock,
        ]
    );
}
