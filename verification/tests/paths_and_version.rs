use ew_backup_gen::paths::{
    get_backups_path, get_config_path, get_service_base_path, Location, NoLocalDataDir,
};
use ew_backup_gen::version::{package_version, windows_version};

#[test]
fn service_has_a_directory_of_its_own() {
    let r = get_service_base_path(Some("base")).unwrap();
    assert_eq!(r.base, "base");
    assert_eq!(r.names, ["The Streamer Company SpA.", "EW Backup Service"]);
}

#[test]
fn configuration_has_its_place() {
    let r = get_config_path(Some(7u8)).unwrap();
    assert_eq!(r.dir.base, 7);
    assert_eq!(r.dir.names, ["The Streamer Company SpA.", "EW Backup Service", "Configs"]);
    assert_eq!(r.file_name, "config.ini");
}

#[test]
fn backups_have_their_place() {
    let r = get_backups_path(Some(7u8)).unwrap();
    assert_eq!(r.names, ["The Streamer Company SpA.", "EW Backup Service", "Backups"]);
}

#[test]
fn without_local_data_there_is_no_place() {
    assert_eq!(get_service_base_path::<u8>(None).err(), Some(NoLocalDataDir));
    assert_eq!(get_config_path::<u8>(None).err(), Some(NoLocalDataDir));
    assert_eq!(get_backups_path::<u8>(None).err(), Some(NoLocalDataDir));
}

#[test]
fn locations_are_extended() {
    let l = Location { base: (), names: vec!["a".to_string()] }.join("b");
    assert_eq!(l.names, ["a", "b"]);
}

#[test]
fn versions_get_four_parts() {
    assert_eq!(windows_version("0.1.1"), "0,1,1,0");
    assert_eq!(windows_version("1.2.3.4"), "1,2,3,4");
    assert_eq!(windows_version("1.2.3.4.5"), "1,2,3,4");
    assert_eq!(windows_version("7"), "7,0,0,0");
    assert_eq!(windows_version(""), ",0,0,0");
    assert_eq!(windows_version("1..3"), "1,,3,0");
}

#[test]
fn version_is_read_from_the_manifest() {
    let manifest = "[package]\nname = \"x\"\nversion = \"0.1.1\"\nedition = \"2024\"\n";
    assert_eq!(package_version(manifest), "0.1.1");
}

#[test]
fn first_version_line_counts() {
    assert_eq!(package_version("version = \"1.0\"\r\nversion = \"2.0\"\r\n"), "1.0");
    assert_eq!(package_version("  version = \"1.0\"\nversion = \"2.0\""), "2.0");
    assert_eq!(package_version("version = 1\nversion = \"2.0\""), "0.0.0.0");
}

#[test]
fn missing_version_is_zero() {
    assert_eq!(package_version(""), "0.0.0.0");
    assert_eq!(package_version("[package]\nversion=\"1\"\n"), "0.0.0.0");
}

#[test]
fn unclosed_version_goes_to_the_end_of_the_line() {
    assert_eq!(package_version("version = \"3.1\r\nname = \"x\"\n"), "3.1");
    assert_eq!(package_version("version = \"3.1\r"), "3.1\r");
}

#[test]
fn version_is_read_as_lines_and_splits_would() {
    for manifest in [
        "a\nversion = \"1\"",
        "version = \"\"",
        "version = \"1\" # \"2\"\n",
        "version = ñ\"é\"",
        "\n\n\r\nversion = \"9.9\"\r\n",
        "version = ",
        "xversion = \"1\"",
    ] {
        let expected = manifest
            .lines()
            .find(|line| line.starts_with("version = "))
            .and_then(|line| line.split('"').nth(1))
            .unwrap_or("0.0.0.0");
        assert_eq!(package_version(manifest), expected);
    }
}
