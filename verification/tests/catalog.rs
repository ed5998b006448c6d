use rusted_engine::engine::event_loop::{
    input_direction, input_turn, EventLoop, KEY_A, KEY_D, KEY_E, KEY_KP_ADD, KEY_KP_SUBTRACT, KEY_Q, KEY_S, KEY_W,
};
use rusted_engine::engine::graphics::assets::custom_shader::CustomShader;
use rusted_engine::engine::graphics::assets::square::Square;
use rusted_engine::engine::graphics::assets::square_shader::SquareShader;
use rusted_engine::engine::graphics::internal_object::graphics_object::{
    CollisionMode, CollisionModes, Generic2DGraphicsObject, RenderResources,
};
use rusted_engine::engine::graphics::texture_manager::{texture_name, TextureManager};
use rusted_engine::engine::graphics::util::master_id_generator::MasterIdGenerator;
use rusted_engine::engine::key_states::{Action, Key, State, WindowEvent};
use rusted_engine::engine::math::fixed::{Heading, Vector3, FULL_ROTATION, UNIT};
use rusted_engine::engine::math::matrix::Matrix4;
use rusted_engine::engine::scenes::scene::Scene;
use rusted_engine::engine::scenes::scene_manager::{
    check_descriptions, parse_collision_mode, parse_collision_modes, scene_name, ObjectData, SceneLoadError,
    SceneManager,
};
use rusted_engine::engine::scenes::testscene::{custom_texture_data, custom_vertex_data, TestScene};
use rusted_engine::engine::util::master_clock::MasterClock;
use rusted_engine::engine::util::name_table::NameTable;

fn description(name: &str, texture: &str, modes: &[&str]) -> ObjectData {
    ObjectData {
        name: name.to_string(),
        vertex_data: vec![500_000, 500_000, 500_000, -500_000, -500_000, -500_000, -500_000, 500_000],
        texture_coords: vec![1_000_000, 0, 1_000_000, 1_000_000, 0, 1_000_000, 0, 0],
        shader_program: 3,
        resources: RenderResources { vao: 1, position_vbo: 2, tex_vbo: 3 },
        position: vec![100_000, 200_000, 300_000],
        rotation: 7_000_000,
        heading: Heading::new(753_902, 656_987).unwrap(),
        scale: 1_500_000,
        texture_name: texture.to_string(),
        collision_modes: modes.iter().map(|mode| mode.to_string()).collect(),
    }
}

fn textures() -> TextureManager {
    let mut manager = TextureManager::new();
    manager.load_texture("FamiliarBlock", 31);
    manager.load_texture("BasicCharacterRed", 32);
    manager
}

fn press(code: i32) -> WindowEvent {
    WindowEvent::Key(Key { code }, Action::Press)
}

#[test]
fn collision_mode_names() {
    assert_eq!(parse_collision_mode(&"AABB".to_string()), Some(CollisionMode::AABB));
    assert_eq!(parse_collision_mode(&"Circle".to_string()), Some(CollisionMode::Circle));
    assert_eq!(parse_collision_mode(&"OBB".to_string()), Some(CollisionMode::OBB));
    assert_eq!(parse_collision_mode(&"aabb".to_string()), None);
    assert_eq!(parse_collision_mode(&"".to_string()), None);
    assert_eq!(parse_collision_mode(&"AABB ".to_string()), None);
}

#[test]
fn unknown_collision_mode_names_are_ignored() {
    let names: Vec<String> = ["Circle", "Sphere", "", "OBB", "Circle"].iter().map(|name| name.to_string()).collect();
    let modes = parse_collision_modes(&names);
    assert!(modes.contains(CollisionMode::Circle));
    assert!(modes.contains(CollisionMode::OBB));
    assert!(!modes.contains(CollisionMode::AABB));
    assert!(parse_collision_modes(&Vec::new()).is_empty());
    assert_eq!(parse_collision_modes(&vec!["box".to_string()]), CollisionModes::new());
}

#[test]
fn scene_names_come_from_the_file_stem() {
    assert_eq!(scene_name(Some("testscene2".to_string())), "testscene2");
    assert_eq!(scene_name(None), "Unnamed");
    assert_eq!(scene_name(Some(String::new())), "");
}

#[test]
fn a_scene_is_built_from_its_descriptions() {
    let mut manager = SceneManager::new();
    let mut ids = MasterIdGenerator::new();
    ids.generate_id();
    let descriptions = vec![
        description("debug_playersquare", "FamiliarBlock", &["AABB", "Circle"]),
        description("testscene2_obj1", "BasicCharacterRed", &["nothing"]),
    ];
    let result = manager.load_scene_from_descriptions("testscene2".to_string(), &descriptions, &textures(), &mut ids);
    assert_eq!(result, Ok(()));
    assert_eq!(ids.generate_id(), 4);
    assert_eq!(manager.list_scenes(), vec!["testscene2".to_string()]);
    let scene = manager.get_scene("testscene2").unwrap();
    let objects = scene.get_objects();
    assert_eq!(objects.len(), 2);
    let first = &objects[0];
    assert_eq!(first.get_id(), 2);
    assert_eq!(first.get_name(), "debug_playersquare");
    assert_eq!(first.get_vertex_data(), &descriptions[0].vertex_data);
    assert_eq!(first.get_texture_coords(), &descriptions[0].texture_coords);
    assert_eq!(first.get_shader_program(), 3);
    assert_eq!(first.get_resources(), RenderResources { vao: 1, position_vbo: 2, tex_vbo: 3 });
    assert_eq!(first.get_position(), Vector3::new(100_000, 200_000, 300_000));
    assert_eq!(first.get_rotation(), 7_000_000 - FULL_ROTATION);
    assert_eq!(first.get_heading(), Heading::new(753_902, 656_987).unwrap());
    assert_eq!(first.get_scale(), 1_500_000);
    assert_eq!(first.get_texture_id(), Some(31));
    assert_eq!(first.get_model_matrix().entries(), Matrix4::identity().entries());
    assert!(first.get_collision_modes().contains(CollisionMode::AABB));
    assert!(first.get_collision_modes().contains(CollisionMode::Circle));
    assert!(!first.get_collision_modes().contains(CollisionMode::OBB));
    let second = &objects[1];
    assert_eq!(second.get_id(), 3);
    assert_eq!(second.get_texture_id(), Some(32));
    assert!(second.get_collision_modes().is_empty());
}

#[test]
fn a_malformed_description_stops_the_whole_scene() {
    let mut manager = SceneManager::new();
    let mut ids = MasterIdGenerator::new();
    let mut short = description("b", "FamiliarBlock", &[]);
    short.position = vec![1, 2];
    let descriptions = vec![description("a", "FamiliarBlock", &[]), short];
    let result = manager.load_scene_from_descriptions("level".to_string(), &descriptions, &textures(), &mut ids);
    assert_eq!(result, Err(SceneLoadError::MalformedObject(1)));
    assert!(manager.get_scene("level").is_none());
    assert!(manager.list_scenes().is_empty());
    assert_eq!(ids.generate_id(), 1);

    let mut odd = description("c", "FamiliarBlock", &[]);
    odd.vertex_data.push(1);
    odd.texture_coords.push(1);
    assert_eq!(check_descriptions(&vec![odd], &textures()), Some(SceneLoadError::MalformedObject(0)));
    let mut uneven = description("d", "FamiliarBlock", &[]);
    uneven.texture_coords.truncate(6);
    assert_eq!(check_descriptions(&vec![uneven], &textures()), Some(SceneLoadError::MalformedObject(0)));
    let mut long = description("e", "FamiliarBlock", &[]);
    long.position.push(0);
    assert_eq!(check_descriptions(&vec![long], &textures()), Some(SceneLoadError::MalformedObject(0)));
}

#[test]
fn an_unknown_texture_stops_the_whole_scene() {
    let mut manager = SceneManager::new();
    manager.add_scene("level".to_string(), Scene::new());
    let mut ids = MasterIdGenerator::new();
    let descriptions = vec![
        description("a", "FamiliarBlock", &[]),
        description("b", "BasicCharacterRed", &[]),
        description("c", "BasicCharacterGreen", &[]),
    ];
    let result = manager.load_scene_from_descriptions("level".to_string(), &descriptions, &textures(), &mut ids);
    assert_eq!(result, Err(SceneLoadError::UnknownTexture(2)));
    assert_eq!(manager.get_scene("level").unwrap().get_objects().len(), 0);
    assert_eq!(ids.generate_id(), 1);
}

#[test]
fn the_first_fault_is_reported() {
    let mut broken = description("b", "nowhere", &[]);
    broken.position.clear();
    let descriptions = vec![
        description("a", "FamiliarBlock", &[]),
        description("b", "nowhere", &[]),
        broken,
    ];
    assert_eq!(check_descriptions(&descriptions, &textures()), Some(SceneLoadError::UnknownTexture(1)));
    let mut both = description("b", "nowhere", &[]);
    both.position.clear();
    assert_eq!(check_descriptions(&vec![both], &textures()), Some(SceneLoadError::MalformedObject(0)));
    assert_eq!(check_descriptions(&Vec::new(), &textures()), None);
    assert_eq!(check_descriptions(&vec![description("a", "FamiliarBlock", &[])], &textures()), None);
}

#[test]
fn loading_under_a_used_name_replaces_the_scene() {
    let mut manager = SceneManager::new();
    let mut ids = MasterIdGenerator::new();
    let one = vec![description("a", "FamiliarBlock", &[])];
    let two = vec![description("b", "FamiliarBlock", &[]), description("c", "FamiliarBlock", &[])];
    assert!(manager.load_scene_from_descriptions("level".to_string(), &one, &textures(), &mut ids).is_ok());
    assert!(manager.load_scene_from_descriptions("level".to_string(), &two, &textures(), &mut ids).is_ok());
    assert_eq!(manager.list_scenes(), vec!["level".to_string()]);
    let objects = manager.get_scene("level").unwrap().get_objects();
    assert_eq!(objects.len(), 2);
    assert_eq!(objects[0].get_name(), "b");
    assert_eq!(objects[0].get_id(), 2);
    assert_eq!(objects[1].get_id(), 3);
    assert!(manager.load_scene_from_descriptions("empty".to_string(), &Vec::new(), &textures(), &mut ids).is_ok());
    assert_eq!(manager.get_scene("empty").unwrap().get_objects().len(), 0);
}

#[test]
fn scenes_are_kept_by_name() {
    let mut manager = SceneManager::new();
    assert!(manager.list_scenes().is_empty());
    assert!(manager.get_scene("a").is_none());
    let mut scene = Scene::new();
    scene.add_object(Generic2DGraphicsObject::new(
        1,
        "only".to_string(),
        Vec::new(),
        Vec::new(),
        RenderResources { vao: 0, position_vbo: 0, tex_vbo: 0 },
        0,
        Vector3::zeros(),
        0,
        Heading::forward(),
        UNIT,
        None,
        CollisionModes::new(),
    ));
    manager.add_scene("a".to_string(), scene);
    manager.add_scene("b".to_string(), Scene::new());
    assert_eq!(manager.list_scenes(), vec!["a".to_string(), "b".to_string()]);
    assert_eq!(manager.get_scene("a").unwrap().get_objects().len(), 1);
    manager.add_scene("a".to_string(), Scene::new());
    assert_eq!(manager.get_scene("a").unwrap().get_objects().len(), 0);
    assert_eq!(manager.list_scenes().len(), 2);
    assert!(manager.remove_scene("b").is_some());
    assert!(manager.remove_scene("b").is_none());
    assert!(manager.get_scene("b").is_none());
    assert_eq!(manager.list_scenes(), vec!["a".to_string()]);
}

#[test]
fn a_scene_keeps_the_order_of_its_entities() {
    let mut scene = Scene::new();
    assert!(scene.get_objects().is_empty());
    for id in [5u64, 3, 9] {
        scene.add_object(Generic2DGraphicsObject::new(
            id,
            "same".to_string(),
            Vec::new(),
            Vec::new(),
            RenderResources { vao: 0, position_vbo: 0, tex_vbo: 0 },
            0,
            Vector3::zeros(),
            0,
            Heading::forward(),
            UNIT,
            None,
            CollisionModes::new(),
        ));
    }
    let ids: Vec<u64> = scene.get_objects().iter().map(|object| object.get_id()).collect();
    assert_eq!(ids, vec![5, 3, 9]);
}

#[test]
fn textures_are_kept_by_name_and_loaded_once() {
    let mut manager = TextureManager::new();
    assert_eq!(manager.get_texture_id("FamiliarBlock"), None);
    assert_eq!(manager.load_texture("FamiliarBlock", 4), 4);
    assert_eq!(manager.load_texture("FamiliarBlock", 5), 4);
    assert_eq!(manager.load_texture("Other", 5), 5);
    assert_eq!(manager.get_texture_id("FamiliarBlock"), Some(4));
    assert_eq!(manager.get_texture_id("Other"), Some(5));
    assert_eq!(manager.get_texture_id("other"), None);
}

#[test]
fn texture_names_drop_the_endings_of_image_files() {
    assert_eq!(texture_name("FamiliarBlock.png", "png"), Some("FamiliarBlock".to_string()));
    assert_eq!(texture_name("photo.jpg", "jpg"), Some("photo".to_string()));
    assert_eq!(texture_name("photo.jpeg", "jpeg"), Some("photo".to_string()));
    assert_eq!(texture_name("photo.png.png", "png"), Some("photo".to_string()));
    assert_eq!(texture_name("photo.jpeg.jpg.png", "png"), Some("photo".to_string()));
    assert_eq!(texture_name("photo.png.jpeg", "jpeg"), Some("photo.png".to_string()));
    assert_eq!(texture_name("plain", "png"), Some("plain".to_string()));
    assert_eq!(texture_name(".png", "png"), Some(String::new()));
    assert_eq!(texture_name("notes.txt", "txt"), None);
    assert_eq!(texture_name("photo.PNG", "PNG"), None);
    assert_eq!(texture_name("photo.png", ""), None);
}

#[test]
fn keys_are_held_from_press_to_release() {
    let mut state = State::new();
    let w = Key { code: KEY_W };
    let a = Key { code: KEY_A };
    assert!(!state.is_key_pressed(w));
    state.handle_key_event(WindowEvent::Key(w, Action::Press));
    assert!(state.is_key_pressed(w));
    assert!(!state.is_key_pressed(a));
    state.handle_key_event(WindowEvent::Key(w, Action::Repeat));
    state.handle_key_event(WindowEvent::Key(a, Action::Repeat));
    assert!(state.is_key_pressed(w));
    assert!(state.is_key_pressed(a));
    state.handle_key_event(WindowEvent::Other);
    assert!(state.is_key_pressed(w));
    state.handle_key_event(WindowEvent::Key(w, Action::Release));
    assert!(!state.is_key_pressed(w));
    assert!(state.is_key_pressed(a));
    state.handle_key_event(WindowEvent::Key(w, Action::Release));
    assert!(!state.is_key_pressed(w));
}

#[test]
fn the_clock_measures_the_time_between_updates() {
    let mut clock = MasterClock::new(1_000);
    assert_eq!(clock.get_delta_time(), 0);
    clock.update(17_667);
    assert_eq!(clock.get_delta_time(), 16_667);
    clock.update(17_667);
    assert_eq!(clock.get_delta_time(), 0);
    clock.update(17_000);
    assert_eq!(clock.get_delta_time(), 0);
    clock.update(17_000 + i32::MAX as u64);
    assert_eq!(clock.get_delta_time(), i32::MAX);
    clock.update(u64::MAX);
    assert_eq!(clock.get_delta_time(), i32::MAX);
    let mut late = MasterClock::new(u64::MAX - 1);
    late.update(u64::MAX);
    assert_eq!(late.get_delta_time(), 1);
}

#[test]
fn the_window_steps_through_its_resolutions() {
    let mut event_loop = EventLoop::new();
    let mut state = State::new();
    assert_eq!(event_loop.current_resolution(), (1280, 720));
    assert_eq!(event_loop.handle_window_event(&mut state, press(KEY_KP_SUBTRACT)), Some((640, 360)));
    assert_eq!(event_loop.handle_window_event(&mut state, press(KEY_KP_SUBTRACT)), None);
    assert_eq!(event_loop.current_resolution(), (640, 360));
    assert_eq!(event_loop.handle_window_event(&mut state, press(KEY_KP_ADD)), Some((1280, 720)));
    assert_eq!(event_loop.handle_window_event(&mut state, press(KEY_KP_ADD)), Some((1920, 1080)));
    assert_eq!(event_loop.handle_window_event(&mut state, press(KEY_KP_ADD)), Some((2560, 1440)));
    assert_eq!(event_loop.handle_window_event(&mut state, press(KEY_KP_ADD)), Some((3840, 2160)));
    assert_eq!(event_loop.handle_window_event(&mut state, press(KEY_KP_ADD)), None);
    assert_eq!(event_loop.current_resolution(), (3840, 2160));
    assert!(!state.is_key_pressed(Key { code: KEY_KP_ADD }));
    assert!(!state.is_key_pressed(Key { code: KEY_KP_SUBTRACT }));
}

#[test]
fn other_events_reach_the_key_state() {
    let mut event_loop = EventLoop::new();
    let mut state = State::new();
    assert_eq!(event_loop.handle_window_event(&mut state, press(KEY_W)), None);
    assert!(state.is_key_pressed(Key { code: KEY_W }));
    let repeat = WindowEvent::Key(Key { code: KEY_KP_ADD }, Action::Repeat);
    assert_eq!(event_loop.handle_window_event(&mut state, repeat), None);
    assert!(state.is_key_pressed(Key { code: KEY_KP_ADD }));
    let release = WindowEvent::Key(Key { code: KEY_KP_ADD }, Action::Release);
    assert_eq!(event_loop.handle_window_event(&mut state, release), None);
    assert!(!state.is_key_pressed(Key { code: KEY_KP_ADD }));
    assert_eq!(event_loop.handle_window_event(&mut state, WindowEvent::Other), None);
    assert_eq!(event_loop.current_resolution(), (1280, 720));
    assert_eq!(event_loop.get_master_graphics_list().len(), 0);
    event_loop.get_master_graphics_list_mut().remove_all();
}

#[test]
fn held_keys_give_the_direction_and_the_turn() {
    let mut state = State::new();
    assert_eq!(input_direction(&state), Vector3::zeros());
    assert_eq!(input_turn(&state, 16_000), 0);
    state.handle_key_event(press(KEY_W));
    state.handle_key_event(press(KEY_D));
    assert_eq!(input_direction(&state), Vector3::new(UNIT, UNIT, 0));
    state.handle_key_event(press(KEY_S));
    assert_eq!(input_direction(&state), Vector3::new(UNIT, 0, 0));
    state.handle_key_event(press(KEY_A));
    assert_eq!(input_direction(&state), Vector3::zeros());
    state.handle_key_event(WindowEvent::Key(Key { code: KEY_D }, Action::Release));
    state.handle_key_event(WindowEvent::Key(Key { code: KEY_W }, Action::Release));
    assert_eq!(input_direction(&state), Vector3::new(-UNIT, -UNIT, 0));
    state.handle_key_event(press(KEY_Q));
    assert_eq!(input_turn(&state, 16_000), 32_000);
    assert_eq!(input_turn(&state, i32::MAX), i32::MAX);
    state.handle_key_event(press(KEY_E));
    assert_eq!(input_turn(&state, 16_000), 0);
    state.handle_key_event(WindowEvent::Key(Key { code: KEY_Q }, Action::Release));
    assert_eq!(input_turn(&state, 16_000), -32_000);
    assert_eq!(input_turn(&state, 1), -2);
    assert_eq!(input_turn(&state, i32::MAX), i32::MIN);
}

#[test]
fn a_name_table_keeps_values_by_name_in_order() {
    let mut table: NameTable<u32> = NameTable::new();
    assert_eq!(table.len(), 0);
    assert_eq!(table.insert("b".to_string(), 2), None);
    assert_eq!(table.insert("a".to_string(), 1), None);
    assert_eq!(table.insert("b".to_string(), 3), Some(2));
    assert_eq!(table.len(), 2);
    assert_eq!(table.name_list(), vec!["b".to_string(), "a".to_string()]);
    assert_eq!(table.values(), &vec![3, 1]);
    assert_eq!(table.get("a"), Some(&1));
    assert_eq!(table.get("c"), None);
    assert_eq!(table.position(&"a".to_string()), Some(1));
    assert_eq!(table.position(&"c".to_string()), None);
    assert_eq!((table.name_at(0).as_str(), *table.value_at(0)), ("b", 3));
    *table.get_mut("a").unwrap() = 10;
    *table.value_at_mut(0) = 30;
    assert!(table.get_mut("c").is_none());
    assert_eq!(table.values(), &vec![30, 10]);
    assert_eq!(table.remove("b"), Some(30));
    assert_eq!(table.remove("b"), None);
    assert_eq!(table.name_list(), vec!["a".to_string()]);
    table.clear();
    assert_eq!(table.len(), 0);
    assert_eq!(table.get("a"), None);
}

#[test]
fn the_coded_scene_has_two_squares_and_a_shape_between_them() {
    let mut ids = MasterIdGenerator::new();
    ids.generate_id();
    let mut manager = TextureManager::new();
    manager.load_texture("FamiliarBlock", 31);
    manager.load_texture("BasicCharacterRed", 32);
    let new_square = SquareShader::new(71);
    let other_square = SquareShader::new(72);
    let custom = CustomShader::new(custom_vertex_data(), custom_texture_data(), 73);
    let mut scene = TestScene::new();
    assert!(scene.get_objects().is_empty());
    scene.initialize(
        &mut ids,
        &manager,
        &new_square,
        RenderResources { vao: 1, position_vbo: 2, tex_vbo: 3 },
        &other_square,
        RenderResources { vao: 4, position_vbo: 5, tex_vbo: 6 },
        &custom,
        RenderResources { vao: 7, position_vbo: 8, tex_vbo: 9 },
    );
    assert_eq!(ids.generate_id(), 5);
    let objects = scene.get_objects();
    assert_eq!(objects.len(), 3);
    assert_eq!(scene.get_scene().get_objects().len(), 3);
    let square = vec![100_000, 100_000, 100_000, -100_000, -100_000, -100_000, -100_000, 100_000];
    let coords = vec![1_000_000, 0, 1_000_000, 1_000_000, 0, 1_000_000, 0, 0];
    assert_eq!(objects[0].get_id(), 2);
    assert_eq!(objects[0].get_name(), "newsquare");
    assert_eq!(objects[0].get_vertex_data(), &square);
    assert_eq!(objects[0].get_texture_coords(), &coords);
    assert_eq!(objects[0].get_shader_program(), 71);
    assert_eq!(objects[0].get_resources(), RenderResources { vao: 1, position_vbo: 2, tex_vbo: 3 });
    assert_eq!(objects[0].get_position(), Vector3::new(300_000, 0, 0));
    assert_eq!(objects[0].get_texture_id(), Some(31));
    assert_eq!((objects[0].get_rotation(), objects[0].get_scale()), (0, UNIT));
    assert_eq!(objects[0].get_heading(), Heading::forward());
    assert!(objects[0].get_collision_modes().contains(CollisionMode::AABB));
    assert!(objects[0].get_collision_modes().contains(CollisionMode::Circle));
    assert!(!objects[0].get_collision_modes().contains(CollisionMode::OBB));
    assert_eq!(objects[1].get_id(), 3);
    assert_eq!(objects[1].get_name(), "othersquare");
    assert_eq!(objects[1].get_position(), Vector3::new(-300_000, 0, 0));
    assert_eq!(objects[1].get_texture_id(), None);
    assert_eq!(objects[1].get_shader_program(), 72);
    assert_eq!(objects[2].get_id(), 4);
    assert_eq!(objects[2].get_name(), "customobject");
    assert_eq!(
        objects[2].get_vertex_data(),
        &vec![300_000, 300_000, 100_000, -100_000, -100_000, -100_000, -100_000, 100_000]
    );
    assert_eq!(objects[2].get_texture_coords(), &coords);
    assert_eq!(objects[2].get_position(), Vector3::zeros());
    assert_eq!(objects[2].get_texture_id(), Some(32));
    assert_eq!(objects[2].get_resources(), RenderResources { vao: 7, position_vbo: 8, tex_vbo: 9 });
    // The squares are 0.6 apart and 0.2 wide; the shape reaches 0.3 to the right.
    assert!(!objects[0].is_colliding(&objects[1]));
    assert!(objects[2].is_colliding(&objects[0]));
    assert!(objects[2].is_colliding(&objects[1]));
    scene.add_object(objects_clone(&scene));
    assert_eq!(scene.get_objects().len(), 4);
}

fn objects_clone(scene: &TestScene) -> Generic2DGraphicsObject {
    scene.get_objects()[0].clone_with_resources(RenderResources { vao: 0, position_vbo: 0, tex_vbo: 0 })
}

#[test]
fn ready_made_shapes() {
    let square = Square::new(5);
    assert_eq!(
        square.get_vertex_data(),
        vec![-100_000, 100_000, 100_000, 100_000, 100_000, -100_000, -100_000, -100_000]
    );
    assert_eq!(square.get_shader_program(), 5);
    let textured = SquareShader::new(6);
    assert_eq!(
        textured.get_vertex_data(),
        vec![100_000, 100_000, 100_000, -100_000, -100_000, -100_000, -100_000, 100_000]
    );
    assert_eq!(textured.get_texture_coords(), vec![1_000_000, 0, 1_000_000, 1_000_000, 0, 1_000_000, 0, 0]);
    assert_eq!(textured.get_shader_program(), 6);
    let custom = CustomShader::new(vec![1, 2], vec![3, 4], 7);
    assert_eq!(custom.get_vertex_data(), vec![1, 2]);
    assert_eq!(custom.get_texture_coords(), vec![3, 4]);
    assert_eq!(custom.get_shader_program(), 7);
}

#[test]
fn identifiers_in_a_batch() {
    let mut ids = MasterIdGenerator::new();
    assert_eq!(ids.generate_ids(0), Vec::<u64>::new());
    assert_eq!(ids.generate_ids(5), vec![1, 2, 3, 4, 5]);
    assert_eq!(ids.generate_id(), 6);
    assert_eq!(ids.generate_ids(2), vec![7, 8]);
}
