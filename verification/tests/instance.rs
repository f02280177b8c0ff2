use nova_ge::instance::application_info;
use nova_ge::shared::GlobalData;

#[test]
fn engine_identifies_itself() {
    let info = application_info();
    assert_eq!(info.application_name, "Nova GE");
    assert_eq!(info.engine_name, "Nova Engine");
    assert_eq!(info.application_version, 1 << 22);
    assert_eq!(info.engine_version, 1 << 22);
    assert_eq!(info.api_version, ash::vk::API_VERSION_1_2);
    assert_eq!(info.api_version, (1 << 22) | (2 << 12));
}

#[test]
fn global_data_points_at_working_dir() {
    assert_eq!(GlobalData::in_working_dir().project_dir, ".");
}
