use ember::events::SceneManagerMessage;
use ember::message_pump::SceneManagerMessagePump;

#[test]
fn pump_hands_out_messages_in_order_and_empties() {
    let mut pump = SceneManagerMessagePump::new();
    pump.send(SceneManagerMessage::CloseProject);
    pump.send(SceneManagerMessage::OpenProject { path: "a".to_string(), scene_name: "b".to_string() });
    assert_eq!(pump.len(), 2);
    let taken = pump.take_messages();
    assert_eq!(taken.len(), 2);
    assert!(matches!(taken[0], SceneManagerMessage::CloseProject));
    assert!(matches!(&taken[1], SceneManagerMessage::OpenProject { path, scene_name } if path == "a" && scene_name == "b"));
    assert_eq!(pump.len(), 0);
}
