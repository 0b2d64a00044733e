use eymate::config::{Config, Detection, Modes, Thresholds, Video, BRIGHTNESS_SCALE, SIMILARITY_SCALE};
use eymate::paths::{
    config_file_name, get_config_dir, get_data_dir, model_file_name, reference_file_name,
    users_dir_name,
};

#[test]
fn defaults() {
    let v = Video::default();
    assert_eq!(v.mode, Modes::Ir);
    assert_eq!(v.device_rgb, 0);
    assert_eq!(v.device_ir, 2);
    assert_eq!(v.device(), 2);
    let d = Detection::default();
    assert_eq!(d.min_similarity_rgb, 700_000);
    assert_eq!(d.min_similarity_ir, 900_000);
    assert_eq!(d.min_brightness_rgb, 50 * BRIGHTNESS_SCALE);
    assert_eq!(d.min_brightness_ir, 10 * BRIGHTNESS_SCALE);
    assert_eq!(d.retries, 10);
    assert!(d.is_valid());
    let c = Config::default();
    assert_eq!(
        c.active_thresholds(),
        Thresholds { min_similarity: 900_000, min_brightness: 10_000, max_attempts: 10 }
    );
}

#[test]
fn thresholds_follow_the_mode() {
    let d = Detection::default();
    assert_eq!(
        d.thresholds(Modes::Rgb),
        Thresholds { min_similarity: 700_000, min_brightness: 50_000, max_attempts: 10 }
    );
    let v = Video { mode: Modes::Rgb, device_rgb: 4, device_ir: 5 };
    assert_eq!(v.device(), 4);
    assert_eq!(v.device_for(Modes::Ir), 5);
    assert_eq!(v.device_for(Modes::Rgb), 4);
}

#[test]
fn detection_domain() {
    let mut d = Detection::default();
    d.min_similarity_ir = SIMILARITY_SCALE;
    assert!(d.is_valid());
    d.min_similarity_ir = SIMILARITY_SCALE + 1;
    assert!(!d.is_valid());
    d.min_similarity_ir = 0;
    assert!(!d.is_valid());
    let mut d = Detection::default();
    d.retries = 0;
    assert!(!d.is_valid());
}

#[test]
fn directories_and_files() {
    assert_eq!(get_config_dir(), "/etc/eymate/");
    assert_eq!(get_data_dir(), "/usr/share/eymate/");
    assert_eq!(config_file_name(), "config.toml");
    assert_eq!(model_file_name(), "vggface2.pt");
    assert_eq!(users_dir_name(), "users");
    assert_eq!(reference_file_name(Modes::Ir), "ir.bin");
    assert_eq!(reference_file_name(Modes::Rgb), "rgb.bin");
}
