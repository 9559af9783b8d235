use hachimi_installer::installer::Installer;
use hachimi_installer::target::{catalog, Target, TopologyKind};

fn direct_installer(dir: Option<&str>, custom: Option<&str>) -> Installer {
    Installer {
        install_dir: dir.map(|d| d.to_string()),
        target: Target::Winhttp,
        custom_target: custom.map(|c| c.to_string()),
    }
}

#[test]
fn topology_kind_is_stable_and_expected() {
    assert_eq!(Target::Winhttp.topology_kind(), TopologyKind::Direct);
    assert_eq!(Target::Version.topology_kind(), TopologyKind::Direct);
    assert_eq!(Target::Opengl32.topology_kind(), TopologyKind::Direct);
    assert_eq!(Target::CriWareUnity.topology_kind(), TopologyKind::DotLocal);
    for t in [Target::Winhttp, Target::Version, Target::Opengl32, Target::CriWareUnity] {
        assert_eq!(t.topology_kind(), t.topology_kind());
    }
}

#[test]
fn dll_names_are_the_literal_file_names() {
    assert_eq!(Target::Winhttp.dll_name(), "winhttp.dll");
    assert_eq!(Target::Version.dll_name(), "version.dll");
    assert_eq!(Target::Opengl32.dll_name(), "opengl32.dll");
    assert_eq!(Target::CriWareUnity.dll_name(), "cri_ware_unity.dll");
}

#[test]
fn catalog_is_ordered_and_topology_consistent() {
    let direct = catalog(TopologyKind::Direct);
    assert_eq!(direct, vec![Target::Winhttp, Target::Version, Target::Opengl32]);
    let overlay = catalog(TopologyKind::DotLocal);
    assert_eq!(overlay, vec![Target::CriWareUnity]);
    for t in direct {
        assert_eq!(t.topology_kind(), TopologyKind::Direct);
    }
    for t in overlay {
        assert_eq!(t.topology_kind(), TopologyKind::DotLocal);
    }
}

#[test]
fn target_path_is_base_joined_with_file_name() {
    let i = direct_installer(Some("C:\\game"), None);
    assert_eq!(i.get_target_path(Target::Winhttp).unwrap(), "C:\\game\\winhttp.dll");
    assert_eq!(i.get_target_path(Target::Version).unwrap(), "C:\\game\\version.dll");
    assert_eq!(i.get_target_path(Target::Opengl32).unwrap(), "C:\\game\\opengl32.dll");
}

#[test]
fn overlay_target_path_goes_through_the_overlay_folder() {
    let i = direct_installer(Some("C:\\game"), None);
    assert_eq!(
        i.get_target_path(Target::CriWareUnity).unwrap(),
        "C:\\game\\umamusume.exe.local\\cri_ware_unity.dll"
    );
}

#[test]
fn paths_are_absent_iff_no_base_directory() {
    let i = direct_installer(None, None);
    assert!(i.get_target_path(Target::Winhttp).is_none());
    assert!(i.get_current_target_path().is_none());
    let with_dir = direct_installer(Some("D:\\x"), None);
    assert!(with_dir.get_target_path(Target::Winhttp).is_some());
    assert!(with_dir.get_current_target_path().is_some());
}

#[test]
fn custom_name_overrides_only_the_current_path() {
    let i = direct_installer(Some("C:\\game"), Some("other.dll"));
    assert_eq!(i.get_current_target_path().unwrap(), "C:\\game\\other.dll");
    assert_eq!(i.get_target_path(Target::Winhttp).unwrap(), "C:\\game\\winhttp.dll");
}

#[test]
fn current_path_uses_default_name_without_override() {
    let i = direct_installer(Some("C:\\game"), None);
    assert_eq!(i.get_current_target_path().unwrap(), "C:\\game\\winhttp.dll");
}

#[test]
fn overlay_current_path_with_custom_name() {
    let i = Installer {
        install_dir: Some("C:\\game".to_string()),
        target: Target::CriWareUnity,
        custom_target: Some("renamed.dll".to_string()),
    };
    assert_eq!(
        i.get_current_target_path().unwrap(),
        "C:\\game\\umamusume.exe.local\\renamed.dll"
    );
}

#[test]
fn custom_session_keeps_supplied_values() {
    let i = Installer::custom(Some("E:\\dir".to_string()), Some("x.dll".to_string()));
    assert_eq!(i.install_dir.as_deref(), Some("E:\\dir"));
    assert_eq!(i.target, Target::Winhttp);
    assert_eq!(i.custom_target.as_deref(), Some("x.dll"));
}

#[test]
fn custom_session_without_directory_attempts_discovery() {
    let i = Installer::custom(None, None);
    assert_eq!(i.target, Target::Winhttp);
    assert!(i.custom_target.is_none());
}

#[test]
fn default_session_uses_the_default_target() {
    let i = Installer::default();
    assert_eq!(i.target, Target::Winhttp);
    assert!(i.custom_target.is_none());
}
