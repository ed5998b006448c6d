use rusted_engine::engine::events::collision::{check_collisions, CollisionEvent};
use rusted_engine::engine::events::movement::{move_object, rotate_object, rotation_after};
use rusted_engine::engine::graphics::internal_object::graphics_object::{
    CollisionMode, CollisionModes, Generic2DGraphicsObject, RenderResources,
};
use rusted_engine::engine::graphics::util::master_graphics_list::MasterGraphicsList;
use rusted_engine::engine::math::fixed::{Heading, Vector3, FULL_ROTATION, UNIT};
use rusted_engine::engine::math::matrix::{Matrix4, MODEL_UNIT};
use rusted_engine::engine::scenes::scene::Scene;

fn boxed(id: u64, name: &str, half: i32, x: i32, y: i32) -> Generic2DGraphicsObject {
    let mut modes = CollisionModes::new();
    modes.insert(CollisionMode::AABB);
    Generic2DGraphicsObject::new(
        id,
        name.to_string(),
        vec![half, half, half, -half, -half, -half, -half, half],
        vec![0; 8],
        RenderResources { vao: id as u32, position_vbo: id as u32 + 100, tex_vbo: id as u32 + 200 },
        1,
        Vector3::new(x, y, 0),
        0,
        Heading::forward(),
        UNIT,
        None,
        modes,
    )
}

fn event(first: &str, second: &str) -> CollisionEvent {
    CollisionEvent { object_name_1: first.to_string(), object_name_2: second.to_string() }
}

#[test]
fn a_new_registry_is_empty() {
    let list = MasterGraphicsList::new();
    assert_eq!(list.len(), 0);
    assert!(list.get_object("A").is_none());
    assert!(list.get_objects().is_empty());
}

#[test]
fn add_object_keys_an_entity_by_its_name() {
    let mut list = MasterGraphicsList::new();
    assert_eq!(list.add_object(boxed(7, "A", 400_000, 0, 0)), 7);
    assert_eq!(list.add_object(boxed(8, "B", 400_000, 2_000_000, 0)), 8);
    assert_eq!(list.len(), 2);
    assert_eq!(list.get_object("A").unwrap().get_id(), 7);
    assert_eq!(list.get_object("B").unwrap().get_id(), 8);
    assert!(list.get_object("C").is_none());
    assert!(list.get_object("a").is_none());
    assert!(list.get_object("").is_none());
    assert_eq!(list.name_at(0), "A");
    assert_eq!(list.name_at(1), "B");
    assert_eq!(list.object_at(1).get_id(), 8);
}

#[test]
fn adding_under_a_used_name_replaces_the_entity() {
    let mut list = MasterGraphicsList::new();
    list.add_object(boxed(1, "A", 400_000, 0, 0));
    list.add_object(boxed(2, "B", 400_000, 0, 0));
    list.add_object(boxed(3, "A", 400_000, 5, 5));
    assert_eq!(list.len(), 2);
    assert_eq!(list.get_object("A").unwrap().get_id(), 3);
    assert_eq!(list.get_object("A").unwrap().get_position(), Vector3::new(5, 5, 0));
    assert_eq!(list.get_object("B").unwrap().get_id(), 2);
    assert_eq!(list.name_at(0), "A");
}

#[test]
fn remove_object_and_remove_all() {
    let mut list = MasterGraphicsList::new();
    list.add_object(boxed(1, "A", 400_000, 0, 0));
    list.add_object(boxed(2, "B", 400_000, 0, 0));
    list.add_object(boxed(3, "C", 400_000, 0, 0));
    list.remove_object("B");
    assert_eq!(list.len(), 2);
    assert!(list.get_object("B").is_none());
    assert_eq!(list.get_object("A").unwrap().get_id(), 1);
    assert_eq!(list.get_object("C").unwrap().get_id(), 3);
    assert_eq!(list.name_at(1), "C");
    list.remove_object("missing");
    assert_eq!(list.len(), 2);
    list.remove_all();
    assert_eq!(list.len(), 0);
    assert!(list.get_object("A").is_none());
    list.add_object(boxed(4, "A", 400_000, 0, 0));
    assert_eq!(list.get_object("A").unwrap().get_id(), 4);
}

#[test]
fn get_object_mut_changes_the_entity_in_the_registry() {
    let mut list = MasterGraphicsList::new();
    list.add_object(boxed(1, "A", 400_000, 0, 0));
    list.add_object(boxed(2, "B", 400_000, 0, 0));
    list.get_object_mut("A").unwrap().set_position(Vector3::new(1, 2, 3));
    assert!(list.get_object_mut("Z").is_none());
    assert_eq!(list.get_object("A").unwrap().get_position(), Vector3::new(1, 2, 3));
    assert_eq!(list.get_object("B").unwrap().get_position(), Vector3::new(0, 0, 0));
    assert_eq!(list.len(), 2);
}

#[test]
fn load_scene_copies_the_entities_and_leaves_the_scene_alone() {
    let mut scene = Scene::new();
    scene.add_object(boxed(1, "A", 400_000, 10, 20));
    scene.add_object(boxed(2, "B", 400_000, 30, 40));
    let fresh = vec![
        RenderResources { vao: 51, position_vbo: 52, tex_vbo: 53 },
        RenderResources { vao: 61, position_vbo: 62, tex_vbo: 63 },
    ];
    let mut list = MasterGraphicsList::new();
    list.add_object(boxed(9, "Z", 400_000, 0, 0));
    assert!(list.load_scene(&scene, &fresh));
    assert_eq!(list.len(), 3);
    let a = list.get_object("A").unwrap();
    assert_eq!(a.get_id(), 1);
    assert_eq!(a.get_position(), Vector3::new(10, 20, 0));
    assert_eq!(a.get_resources(), fresh[0]);
    assert_eq!(list.get_object("B").unwrap().get_resources(), fresh[1]);
    assert_eq!(list.get_object("Z").unwrap().get_id(), 9);
    assert_eq!(scene.get_objects().len(), 2);
    assert_eq!(scene.get_objects()[0].get_resources(), RenderResources { vao: 1, position_vbo: 101, tex_vbo: 201 });
}

#[test]
fn moving_a_loaded_entity_leaves_the_scene_entity_in_place() {
    let mut scene = Scene::new();
    scene.add_object(boxed(1, "A", 400_000, 10, 20));
    let fresh = vec![RenderResources { vao: 51, position_vbo: 52, tex_vbo: 53 }];
    let mut list = MasterGraphicsList::new();
    assert!(list.load_scene(&scene, &fresh));
    let live = list.get_object_mut("A").unwrap();
    live.set_position(Vector3::new(-1, -2, -3));
    live.set_scale(5);
    live.set_rotation(100, Heading::new(1, 1).unwrap());
    assert_eq!(list.get_object("A").unwrap().get_position(), Vector3::new(-1, -2, -3));
    let template = &scene.get_objects()[0];
    assert_eq!(template.get_position(), Vector3::new(10, 20, 0));
    assert_eq!(template.get_scale(), UNIT);
    assert_eq!(template.get_rotation(), 0);
    assert_eq!(template.get_heading(), Heading::forward());
    // The scene can be loaded again and gives the same entity.
    let mut second = MasterGraphicsList::new();
    assert!(second.load_scene(&scene, &fresh));
    assert_eq!(second.get_object("A").unwrap().get_position(), Vector3::new(10, 20, 0));
}

#[test]
fn load_scene_wants_one_set_of_resources_per_entity() {
    let mut scene = Scene::new();
    scene.add_object(boxed(1, "A", 400_000, 10, 20));
    scene.add_object(boxed(2, "B", 400_000, 30, 40));
    let mut list = MasterGraphicsList::new();
    list.add_object(boxed(9, "Z", 400_000, 0, 0));
    assert!(!list.load_scene(&scene, &vec![RenderResources { vao: 1, position_vbo: 1, tex_vbo: 1 }]));
    assert!(!list.load_scene(&scene, &Vec::new()));
    assert_eq!(list.len(), 1);
    assert!(list.get_object("A").is_none());
    assert!(list.load_scene(&Scene::new(), &Vec::new()));
    assert_eq!(list.len(), 1);
}

#[test]
fn load_scene_keeps_the_later_of_two_entities_with_one_name() {
    let mut scene = Scene::new();
    scene.add_object(boxed(1, "A", 400_000, 10, 20));
    scene.add_object(boxed(2, "A", 400_000, 30, 40));
    let fresh = vec![
        RenderResources { vao: 51, position_vbo: 52, tex_vbo: 53 },
        RenderResources { vao: 61, position_vbo: 62, tex_vbo: 63 },
    ];
    let mut list = MasterGraphicsList::new();
    assert!(list.load_scene(&scene, &fresh));
    assert_eq!(list.len(), 1);
    assert_eq!(list.get_object("A").unwrap().get_id(), 2);
    assert_eq!(list.get_object("A").unwrap().get_resources(), fresh[1]);
}

#[test]
fn update_model_matrices_refreshes_every_entity() {
    let mut list = MasterGraphicsList::new();
    list.add_object(boxed(1, "A", 400_000, 1_000_000, 0));
    list.add_object(boxed(2, "B", 400_000, 0, -2_000_000));
    list.update_model_matrices();
    let a = list.get_object("A").unwrap().get_model_matrix().entries();
    let b = list.get_object("B").unwrap().get_model_matrix().entries();
    assert_eq!(a, Matrix4::model(&Vector3::new(1_000_000, 0, 0), &Heading::forward(), UNIT).entries());
    assert_eq!((a[12], a[13]), (MODEL_UNIT, 0));
    assert_eq!((b[12], b[13]), (0, -2 * MODEL_UNIT));
    assert_eq!(list.name_at(0), "A");
    assert_eq!(list.name_at(1), "B");
}

#[test]
fn two_boxes_apart_and_then_moved_together() {
    let mut list = MasterGraphicsList::new();
    list.add_object(boxed(1, "A", 400_000, 0, 0));
    list.add_object(boxed(2, "B", 400_000, 2_000_000, 0));
    {
        let a = list.get_object("A").unwrap();
        let b = list.get_object("B").unwrap();
        assert!(!a.is_colliding(b));
        assert!(!b.is_colliding(a));
    }
    assert!(check_collisions(&list, "A").is_empty());
    // With half-widths of 0.4 the boxes span 0.6..1.4 and 1.6..2.4 once A
    // stands at 1: still apart.
    list.get_object_mut("A").unwrap().set_position(Vector3::new(1_000_000, 0, 0));
    assert!(!list.get_object("A").unwrap().is_colliding(list.get_object("B").unwrap()));
    // At 1.2 they touch, and from there on they overlap.
    list.get_object_mut("A").unwrap().set_position(Vector3::new(1_200_000, 0, 0));
    assert!(!list.get_object("A").unwrap().is_colliding(list.get_object("B").unwrap()));
    list.get_object_mut("A").unwrap().set_position(Vector3::new(1_200_001, 0, 0));
    assert!(list.get_object("A").unwrap().is_colliding(list.get_object("B").unwrap()));
    assert_eq!(check_collisions(&list, "A"), vec![event("A", "B")]);
    assert_eq!(check_collisions(&list, "B"), vec![event("B", "A")]);
}

#[test]
fn check_collisions_reports_the_others_in_the_order_of_the_registry() {
    let mut list = MasterGraphicsList::new();
    list.add_object(boxed(1, "far", 400_000, 9_000_000, 0));
    list.add_object(boxed(2, "left", 400_000, -500_000, 0));
    list.add_object(boxed(3, "player", 400_000, 0, 0));
    list.add_object(boxed(4, "right", 400_000, 500_000, 0));
    list.add_object(boxed(5, "same", 400_000, 0, 0));
    assert_eq!(
        check_collisions(&list, "player"),
        vec![event("player", "left"), event("player", "right"), event("player", "same")]
    );
    assert_eq!(check_collisions(&list, "far"), Vec::new());
    assert_eq!(check_collisions(&list, "left"), vec![event("left", "player"), event("left", "same")]);
}

#[test]
fn check_collisions_for_a_name_that_is_not_there_finds_nothing() {
    let mut list = MasterGraphicsList::new();
    list.add_object(boxed(1, "A", 400_000, 0, 0));
    list.add_object(boxed(2, "B", 400_000, 0, 0));
    assert!(check_collisions(&list, "C").is_empty());
    assert!(check_collisions(&MasterGraphicsList::new(), "A").is_empty());
}

#[test]
fn move_object_adds_direction_times_speed_times_time() {
    let mut object = boxed(1, "A", 400_000, 100, -100);
    // 0.2 per second for 16 ms upwards: 0.0032.
    move_object(&mut object, Vector3::new(0, UNIT, 0), 200_000, 16_000);
    assert_eq!(object.get_position(), Vector3::new(100, 3_100, 0));
    move_object(&mut object, Vector3::new(-UNIT, -UNIT, UNIT), 200_000, 16_000);
    assert_eq!(object.get_position(), Vector3::new(-3_100, -100, 3_200));
    let entries = object.get_model_matrix().entries();
    assert_eq!(entries, Matrix4::model(&Vector3::new(-3_100, -100, 3_200), &Heading::forward(), UNIT).entries());
}

#[test]
fn move_object_rounds_towards_zero_and_stops_at_the_range() {
    let mut object = boxed(1, "A", 400_000, 0, 0);
    // 0.000001 * 1.5 * 1.0 = 0.0000015, 1.5 steps.
    move_object(&mut object, Vector3::new(1, -1, 0), 1_500_000, 1_000_000);
    assert_eq!(object.get_position(), Vector3::new(1, -1, 0));
    move_object(&mut object, Vector3::new(1, -1, 0), 999_999, 1_000_000);
    assert_eq!(object.get_position(), Vector3::new(1, -1, 0));
    move_object(&mut object, Vector3::new(i32::MAX, i32::MIN, 0), i32::MAX, i32::MAX);
    assert_eq!(object.get_position(), Vector3::new(i32::MAX, i32::MIN, 0));
    move_object(&mut object, Vector3::new(UNIT, -UNIT, UNIT), UNIT, UNIT);
    assert_eq!(object.get_position(), Vector3::new(i32::MAX, i32::MIN, UNIT));
}

#[test]
fn rotate_object_adds_the_angle_and_takes_the_heading() {
    let mut object = boxed(1, "A", 400_000, 0, 0);
    let left = Heading::new(0, UNIT).unwrap();
    assert_eq!(rotation_after(&object, 1_570_796), 1_570_796);
    rotate_object(&mut object, 1_570_796, left);
    assert_eq!(object.get_rotation(), 1_570_796);
    assert_eq!(object.get_heading(), left);
    assert_eq!(object.get_model_matrix().entries(), Matrix4::model(&Vector3::zeros(), &left, UNIT).entries());
    assert_eq!(rotation_after(&object, -1_570_797), FULL_ROTATION - 1);
    rotate_object(&mut object, -1_570_797, Heading::forward());
    assert_eq!(object.get_rotation(), FULL_ROTATION - 1);
    rotate_object(&mut object, i32::MAX, Heading::forward());
    assert_eq!(object.get_rotation(), ((FULL_ROTATION as i64 - 1 + i32::MAX as i64) % FULL_ROTATION as i64) as i32);
}

#[test]
fn entities_are_found_by_their_identifier() {
    let mut list = MasterGraphicsList::new();
    list.add_object(boxed(7, "A", 400_000, 0, 0));
    list.add_object(boxed(8, "B", 400_000, 0, 0));
    list.add_object(boxed(7, "C", 400_000, 0, 0));
    assert_eq!(list.get_object_by_id(8).unwrap().get_name(), "B");
    assert_eq!(list.get_object_by_id(7).unwrap().get_name(), "A");
    assert!(list.get_object_by_id(9).is_none());
    list.remove_object("A");
    assert_eq!(list.get_object_by_id(7).unwrap().get_name(), "C");
    assert!(MasterGraphicsList::new().get_object_by_id(0).is_none());
}
