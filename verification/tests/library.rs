use raytracer::base_command::Command;
use raytracer::camera_input::CameraCommand;
use raytracer::cameras::Cameras;
use raytracer::errors::UiError;
use raytracer::file_reader::group_uv_indices;
use raytracer::light_commands::{LightColor, LightColorInput, LightProperties};
use raytracer::lights::{DistantLight, Lights};
use raytracer::move_input::{ObjectMove, UserMove};
use raytracer::object_light_properties_input::parse_luminosity;
use raytracer::object_load_input::{files_with_extension, DirEntryInfo, ObjectProperties};
use raytracer::polygon_meshes::PolygonMeshes;
use raytracer::ray_tracer::add_channel;
use raytracer::select_input::{parse_i32, parse_id, parse_value};
use raytracer::texture::{clamp_mip_level, update_borders};

fn light(x: i32, color: [u8; 3]) -> DistantLight<i32, u32> {
    DistantLight { origin: x, intensity: 8, back_intensity: 2, ka: 3, color: color.to_vec() }
}

#[test]
fn parse_i32_agrees_with_std() {
    let inputs = [
        "", "0", "7", "12", "+5", "-7", "-", "+", "+-1", "-+1", "2147483647", "2147483648",
        "-2147483648", "-2147483649", " 1", "1 ", "1a", "a1", "007", "-0", "+0",
        "99999999999999999999", "１", "1.0", "0x10", "--1",
    ];
    for input in inputs.iter() {
        assert_eq!(parse_i32(input), input.parse::<i32>().ok(), "input {:?}", input);
    }
}

#[test]
fn parse_i32_values() {
    assert_eq!(parse_i32("42"), Some(42));
    assert_eq!(parse_i32("-42"), Some(-42));
    assert_eq!(parse_i32("+42"), Some(42));
    assert_eq!(parse_i32("-2147483648"), Some(i32::MIN));
    assert_eq!(parse_i32("2147483647"), Some(i32::MAX));
    assert_eq!(parse_i32("2147483648"), None);
    assert_eq!(parse_i32(""), None);
}

#[test]
fn parse_id_accepts_non_negative_numbers() {
    assert_eq!(parse_id("0"), Ok(0));
    assert_eq!(parse_id("3"), Ok(3));
    assert_eq!(parse_id("+12"), Ok(12));
    assert_eq!(parse_id("2147483647"), Ok(2147483647));
}

#[test]
fn parse_id_refuses_other_text() {
    for input in ["", "-1", "abc", "1.5", " 2", "2147483648", "-0x1"].iter() {
        assert_eq!(parse_id(input), Err(UiError::NumberNotFoundError), "input {:?}", input);
    }
    assert_eq!(parse_id("-0"), Ok(0));
}

#[test]
fn parse_id_reads_back_printed_numbers() {
    for n in [0usize, 1, 9, 10, 99, 100, 12345, 2147483647].iter() {
        assert_eq!(parse_id(&format!("{}", n)), Ok(*n));
    }
}

#[test]
fn parse_value_applies_the_validation() {
    let even = |n: i32| n % 2 == 0;
    assert_eq!(parse_value("4", 'e', even), Ok(4));
    assert_eq!(parse_value("5", 'e', even), Err('e'));
    assert_eq!(parse_value("", 'e', even), Err('e'));
    assert_eq!(parse_value("x", 'e', even), Err('e'));
}

#[test]
fn parse_luminosity_values() {
    assert_eq!(parse_luminosity("50"), Ok(50));
    assert_eq!(parse_luminosity("0"), Ok(0));
    assert_eq!(parse_luminosity("-1"), Err(UiError::LuminosityError));
    assert_eq!(parse_luminosity(""), Err(UiError::LuminosityError));
    assert_eq!(parse_luminosity("ten"), Err(UiError::LuminosityError));
}

fn props(r: &str, g: &str, b: &str) -> LightProperties {
    let mut p = LightProperties::default();
    p.light_color.r = r.to_string();
    p.light_color.g = g.to_string();
    p.light_color.b = b.to_string();
    p
}

#[test]
fn parse_color_reads_three_channels() {
    assert_eq!(props("255", "0", "12").parse_color(), Ok(LightColor::new(255, 0, 12)));
    assert_eq!(props("+1", "2", "3").parse_color(), Ok(LightColor { r: 1, g: 2, b: 3 }));
}

#[test]
fn parse_color_refuses_bad_channels() {
    assert_eq!(props("256", "0", "0").parse_color(), Err(UiError::ColorError));
    assert_eq!(props("0", "-1", "0").parse_color(), Err(UiError::ColorError));
    assert_eq!(props("0", "0", "").parse_color(), Err(UiError::ColorError));
    assert_eq!(props("red", "0", "0").parse_color(), Err(UiError::ColorError));
}

#[test]
fn light_color_new_keeps_channels() {
    let c = LightColor::new(1, 2, 3);
    assert_eq!((c.r, c.g, c.b), (1, 2, 3));
}

#[test]
fn defaults_of_the_inputs() {
    let m = UserMove::default();
    assert_eq!((m.dx.as_str(), m.dy.as_str(), m.dz.as_str()), ("0", "0", "0"));
    let o = ObjectMove::default();
    assert_eq!(o.translation.dx, "0");
    assert_eq!(o.rotation.dy, "0");
    assert_eq!(o.scale.dz, "0");
    let c = CameraCommand::default();
    assert_eq!(c.translation.dx, "0");
    assert_eq!(c.rotation.dz, "0");
    assert_eq!(c.fov, "");
    let i = LightColorInput::default();
    assert_eq!((i.r.as_str(), i.g.as_str(), i.b.as_str()), ("", "", ""));
    let p = LightProperties::default();
    assert_eq!(p.light_intensity, "");
    assert_eq!(p.backlight_intensity, "");
    assert_eq!(p.background_const, "");
    assert_eq!(p.light_translation.dy, "0");
    let op = ObjectProperties::default();
    assert_eq!(op.stl_data, "Не выбрано");
    assert_eq!(op.texture_data, "Не выбрано");
    assert_eq!(op.normal_map, "Не выбрано");
    assert_eq!(op.uv, "Не выбрано");
}

#[test]
fn cameras_choose_an_existing_camera() {
    let mut cameras: Cameras<&str> = Cameras::new(vec!["front", "side"]);
    assert_eq!(cameras.active_camera_idx, 0);
    assert_eq!(*cameras.active_camera(), "front");
    assert_eq!(cameras.set_active_camera(1), Ok(()));
    assert_eq!(cameras.active(), Some(&"side"));
    assert_eq!(cameras.set_active_camera(2), Err(UiError::CameraNotPresentedError));
    assert_eq!(cameras.active_camera_idx, 1);
    cameras.add_camera("top");
    assert_eq!(cameras.active_camera_idx, 1);
    assert_eq!(cameras.set_active_camera(2), Ok(()));
    assert_eq!(*cameras.active_camera(), "top");
}

#[test]
fn cameras_without_any_camera() {
    let mut cameras: Cameras<i32> = Cameras::default();
    assert_eq!(cameras.active(), None);
    assert_eq!(cameras.set_active_camera(0), Err(UiError::CameraNotPresentedError));
    cameras.update_active(|c| c + 1);
    assert!(cameras.cameras.is_empty());
}

#[test]
fn cameras_update_only_the_active_camera() {
    let mut cameras: Cameras<i32> = Cameras::new(vec![10, 20, 30]);
    cameras.set_active_camera(1).unwrap();
    cameras.update_active(|c| c + 5);
    assert_eq!(cameras.cameras, vec![10, 25, 30]);
}

#[test]
fn lights_change_one_light() {
    let mut lights = Lights::new(1u32, 2u32, vec![255, 255, 255], vec![light(0, [1, 1, 1]), light(5, [2, 2, 2])]);
    assert_eq!(lights.change_color(vec![9, 8, 7], 1), Ok(()));
    assert_eq!(lights.lights[1].color, vec![9, 8, 7]);
    assert_eq!(lights.lights[0].color, vec![1, 1, 1]);
    assert_eq!(lights.change_color(vec![0, 0, 0], 2), Err(UiError::ObjectNotFoundError));
    assert_eq!(lights.change_light_intensity(4, 0), Ok(()));
    assert_eq!(lights.lights[0].intensity, 4);
    assert_eq!(lights.lights[1].intensity, 8);
    assert_eq!(lights.change_light_intensity(4, 7), Err(UiError::ObjectNotFoundError));
    assert_eq!(lights.check_id(1), Ok(()));
    assert_eq!(lights.check_id(2), Err(UiError::ObjectNotFoundError));
}

#[test]
fn lights_move_and_list_positions() {
    let mut lights = Lights::new(1u32, 2u32, vec![255, 255, 255], vec![light(0, [1, 1, 1]), light(5, [2, 2, 2])]);
    assert_eq!(lights.update_light(0, |mut l| { l.origin += 3; l }), Ok(()));
    assert_eq!(lights.update_light(2, |l| l), Err(UiError::ObjectNotFoundError));
    assert_eq!(lights.lights_positions(), vec![3, 5]);
    lights.add(light(-1, [0, 0, 0]));
    assert_eq!(lights.lights_positions(), vec![3, 5, -1]);
}

#[test]
fn lights_scene_settings() {
    let mut lights = Lights::new(1u32, 2u32, vec![255, 255, 255], Vec::<DistantLight<i32, u32>>::new());
    lights.change_ka(7);
    lights.change_light_back_intensity(6);
    lights.change_light_back_color(vec![1, 2, 3]);
    assert_eq!((lights.ka, lights.back_intensity), (7, 6));
    assert_eq!(lights.back_color, vec![1, 2, 3]);
}

#[test]
fn distant_light_setters() {
    let mut l = light(0, [1, 1, 1]);
    l.change_light_intensity(5);
    assert_eq!(l.intensity, 5);
    l.change_ka(9);
    assert_eq!(l.ka, 9);
    l.change_color(vec![4, 5, 6]);
    assert_eq!(l.color, vec![4, 5, 6]);
    // the "back" intensity setter writes the light's own intensity
    l.change_light_back_intensity(11);
    assert_eq!(l.intensity, 11);
    assert_eq!(l.back_intensity, 2);
}

#[test]
fn meshes_are_numbered_in_order() {
    let mut meshes: PolygonMeshes<String> = PolygonMeshes::default();
    meshes.add("cube".to_string());
    meshes.add("sphere".to_string());
    meshes.add("cone".to_string());
    assert_eq!(meshes.length(), 3);
    assert_eq!(meshes.get_object(1), "sphere");
    assert_eq!(meshes.check_id(2), Ok(()));
    assert_eq!(meshes.check_id(3), Err(UiError::ObjectNotFoundError));
    assert_eq!(meshes.remove_object(5), Err(UiError::ObjectNotFoundError));
    assert_eq!(meshes.length(), 3);
    assert_eq!(meshes.remove_object(0), Ok(()));
    assert_eq!(meshes.meshes, vec!["sphere".to_string(), "cone".to_string()]);
    meshes.update(1, |m| m + "!");
    assert_eq!(meshes.get_object(1), "cone!");
}

#[test]
fn meshes_add_then_remove_last_restores() {
    let mut meshes = PolygonMeshes::new(vec![1, 2, 3]);
    meshes.add(4);
    meshes.remove(3);
    assert_eq!(meshes.meshes, vec![1, 2, 3]);
    meshes.remove_objects(0);
    assert_eq!(meshes.meshes, vec![2, 3]);
}

#[test]
fn uv_indices_fit_the_mesh() {
    let indices = vec![0, 1, 2, 2, 3, 0];
    assert_eq!(group_uv_indices(&indices, 2), Ok(vec![(0, 1, 2), (2, 3, 0)]));
    let with_tail = vec![0, 1, 2, 2, 3, 0, 7];
    assert_eq!(group_uv_indices(&with_tail, 2), Ok(vec![(0, 1, 2), (2, 3, 0)]));
    assert_eq!(group_uv_indices(&vec![], 0), Ok(vec![]));
}

#[test]
fn uv_indices_that_do_not_fit_are_refused() {
    let indices = vec![0, 1, 2, 2, 3, 0];
    assert_eq!(group_uv_indices(&indices, 1), Err(UiError::BadUVError));
    assert_eq!(group_uv_indices(&indices, 3), Err(UiError::BadUVError));
    assert_eq!(group_uv_indices(&vec![0, 1], 1), Err(UiError::BadUVError));
}

fn entry(name: &str, is_file: bool, ext: Option<&str>) -> DirEntryInfo {
    DirEntryInfo {
        file_name: Some(name.to_string()),
        is_file,
        extension: ext.map(|e| e.to_string()),
    }
}

#[test]
fn files_are_listed_by_extension() {
    let entries = vec![
        entry("cube.obj", true, Some("obj")),
        entry("notes.txt", true, Some("txt")),
        entry("models.obj", false, Some("obj")),
        entry("README", true, None),
        DirEntryInfo { file_name: None, is_file: true, extension: Some("obj".to_string()) },
        entry("cone.obj", true, Some("obj")),
        entry("cone.OBJ", true, Some("OBJ")),
    ];
    assert_eq!(files_with_extension(&entries, "obj"), vec!["cube.obj".to_string(), "cone.obj".to_string()]);
    assert_eq!(files_with_extension(&entries, "txt"), vec!["notes.txt".to_string()]);
    assert!(files_with_extension(&entries, "yml").is_empty());
}

#[test]
fn texel_lookups_stay_inside_the_level() {
    assert_eq!(update_borders(3, 4, 8, 8), (3, 4));
    assert_eq!(update_borders(8, 9, 8, 8), (0, 1));
    assert_eq!(update_borders(17, 2, 8, 2), (1, 0));
    assert_eq!(clamp_mip_level(2, 5), 2);
    assert_eq!(clamp_mip_level(5, 5), 4);
    assert_eq!(clamp_mip_level(40, 1), 0);
}

#[test]
fn color_channels_saturate() {
    assert_eq!(add_channel(10, 20), 30);
    assert_eq!(add_channel(200, 55), 255);
    assert_eq!(add_channel(200, 56), 255);
    assert_eq!(add_channel(0, 100000), 255);
    assert_eq!(add_channel(255, 0), 255);
}

struct Counter(u32);

impl Command for Counter {
    fn execute(&mut self) -> Result<(), UiError> {
        if self.0 == 0 {
            return Err(UiError::RenderError);
        }
        self.0 -= 1;
        Ok(())
    }
}

#[test]
fn commands_report_errors() {
    let mut c = Counter(1);
    assert_eq!(c.execute(), Ok(()));
    assert_eq!(c.execute(), Err(UiError::RenderError));
}
