use dsv_gui::views::nsmb::{
    get_object_class_name, ObjectRead, SceneStage, SceneStep, SceneWalk, View, Windows,
    PLAYER_ADDRESS, SCENE_GRAPH_ADDRESS,
};
use dsv_gui::views::{
    collect_object, collect_pointer, decode_pointer, request_object, request_pointer,
    MemoryRequest, POINTER_SIZE,
};

#[test]
fn class_names_of_known_scene_ids() {
    assert_eq!(get_object_class_name(0), "BootScene");
    assert_eq!(get_object_class_name(1), "Scene");
    assert_eq!(get_object_class_name(2), "DebugScene");
    assert_eq!(get_object_class_name(3), "StageScene");
    assert_eq!(get_object_class_name(4), "MainMenuScene");
}

#[test]
fn class_names_of_generic_and_unknown_ids() {
    for id in 5..=17 {
        assert_eq!(get_object_class_name(id), "Scene");
    }
    assert_eq!(get_object_class_name(18), "Base");
    assert_eq!(get_object_class_name(1000), "Base");
    assert_eq!(get_object_class_name(u32::MAX), "Base");
}

#[test]
fn pointer_is_little_endian() {
    assert_eq!(decode_pointer(&[0x5c, 0xb3, 0x08, 0x02]), 0x0208b35c);
    assert_eq!(decode_pointer(&[0xff, 0xff, 0xff, 0xff]), u32::MAX);
    assert_eq!(decode_pointer(&[1, 0, 0, 0]), 1);
}

#[test]
fn pointer_of_wrong_length_is_null() {
    assert_eq!(decode_pointer(&[]), 0);
    assert_eq!(decode_pointer(&[1, 2, 3]), 0);
    assert_eq!(decode_pointer(&[1, 2, 3, 4, 5]), 0);
}

#[test]
fn object_request_for_known_type() {
    let r = request_object("PlayerActor", 0x02100000, Some(0x4c0));
    assert_eq!(r, Ok(MemoryRequest { address: 0x02100000, size: 0x4c0 }));
}

#[test]
fn object_request_for_unknown_type() {
    let r = request_object("PlayerActor", 0x02100000, None);
    assert_eq!(r, Err("PlayerActor struct not found".to_string()));
}

#[test]
fn object_bytes_collected() {
    assert_eq!(collect_object("Scene", Some(&[1, 2, 3])), Ok(vec![1, 2, 3]));
    assert_eq!(collect_object("Scene", None), Err("Scene data not found".to_string()));
}

#[test]
fn pointer_read_steps() {
    assert_eq!(request_pointer(PLAYER_ADDRESS), MemoryRequest { address: PLAYER_ADDRESS, size: 4 });
    assert_eq!(POINTER_SIZE, 4);
    assert_eq!(collect_pointer("PlayerActor", Some(&[0x10, 0x20, 0x30, 0x02])), Ok(0x02302010));
    assert_eq!(collect_pointer("PlayerActor", Some(&[0x10, 0x20])), Ok(0));
    assert_eq!(
        collect_pointer("PlayerActor", None),
        Err("PlayerActor pointer data not found".to_string())
    );
}

#[test]
fn initial_windows() {
    let w = Windows::default();
    assert!(!w.scene.open);
    let player = w.basic_windows[0];
    assert!(!player.open);
    assert_eq!(player.title, "Player");
    assert_eq!(player.struct_name, "PlayerActor");
    assert_eq!(player.address, 0x0208b35c);
    assert!(player.pointer);
    let graph = w.basic_windows[1];
    assert!(!graph.open);
    assert_eq!(graph.title, "SceneGraph");
    assert_eq!(graph.struct_name, "SceneGraph");
    assert_eq!(graph.address, 0x0208fb0c);
    assert!(!graph.pointer);
    let v = View::new();
    assert_eq!(v.windows.basic_windows[0].title, "Player");
}

#[test]
fn windows_read_directly_or_through_pointer() {
    let w = Windows::default();
    assert_eq!(
        w.basic_windows[0].read_plan(),
        ObjectRead::ThroughPointer { struct_name: "PlayerActor", address: PLAYER_ADDRESS }
    );
    assert_eq!(
        w.basic_windows[1].read_plan(),
        ObjectRead::Direct { struct_name: "SceneGraph", address: SCENE_GRAPH_ADDRESS }
    );
}

fn expect_object(step: SceneStep, name: &str, address: u32) {
    match step {
        SceneStep::ReadObject { struct_name, address: a } => {
            assert_eq!(struct_name, name);
            assert_eq!(a, address);
        }
        other => panic!("expected an object read, got {:?}", other),
    }
}

fn expect_field(step: SceneStep, name: &str) {
    match step {
        SceneStep::ReadField { field } => assert_eq!(field, name),
        other => panic!("expected a field read, got {:?}", other),
    }
}

fn expect_error(step: SceneStep, text: &str) {
    match step {
        SceneStep::ShowError { message } => assert_eq!(message, text),
        other => panic!("expected an error, got {:?}", other),
    }
}

#[test]
fn scene_walk_reaches_stage_scene() {
    let (mut walk, step) = SceneWalk::start();
    expect_object(step, "SceneGraph", SCENE_GRAPH_ADDRESS);
    expect_field(walk.object_read(Ok(())), "root");
    expect_object(walk.field_read(Some(0x02200000)), "SceneNode", 0x02200000);
    expect_field(walk.object_read(Ok(())), "object");
    expect_object(walk.field_read(Some(0x02300000)), "Scene", 0x02300000);
    expect_field(walk.object_read(Ok(())), "object_id");
    expect_object(walk.field_read(Some(3)), "StageScene", 0x02300000);
    assert!(matches!(walk.object_read(Ok(())), SceneStep::Render));
    assert_eq!(walk.stage, SceneStage::Finished);
    assert!(!walk.awaits_object());
    assert!(!walk.awaits_field());
}

#[test]
fn scene_walk_unknown_id_reads_base() {
    let (mut walk, _) = SceneWalk::start();
    walk.object_read(Ok(()));
    walk.field_read(Some(1));
    walk.object_read(Ok(()));
    walk.field_read(Some(2));
    walk.object_read(Ok(()));
    expect_object(walk.field_read(Some(99)), "Base", 2);
}

#[test]
fn scene_walk_missing_fields() {
    let (mut walk, _) = SceneWalk::start();
    walk.object_read(Ok(()));
    assert!(walk.awaits_field());
    expect_error(walk.field_read(None), "ERR1");
    assert_eq!(walk.stage, SceneStage::Finished);

    let (mut walk, _) = SceneWalk::start();
    walk.object_read(Ok(()));
    walk.field_read(Some(5));
    walk.object_read(Ok(()));
    expect_error(walk.field_read(None), "ERR2");

    let (mut walk, _) = SceneWalk::start();
    walk.object_read(Ok(()));
    walk.field_read(Some(5));
    walk.object_read(Ok(()));
    walk.field_read(Some(6));
    walk.object_read(Ok(()));
    expect_error(walk.field_read(None), "ERR3");
}

#[test]
fn scene_walk_failed_object_read() {
    let (mut walk, _) = SceneWalk::start();
    assert!(walk.awaits_object());
    expect_error(
        walk.object_read(Err("SceneGraph struct not found".to_string())),
        "SceneGraph struct not found",
    );
    assert_eq!(walk.stage, SceneStage::Finished);
}

#[test]
fn leaving_disconnects_only_a_running_connection() {
    let v = View::new();
    assert!(v.exit(true));
    assert!(!v.exit(false));
}
