use nova_ge::asset::{
    asset_from_compilation, plan_asset, Asset, AssetRequest, ShaderStage, TEST_FRAGMENT_SHADER,
    TEST_FRAGMENT_SHADER_2, TEST_VERTEX_SHADER, TEST_VERTEX_SHADER_2,
};

#[test]
fn known_shader_names_are_planned() {
    let job = plan_asset(&"test_vs".to_string()).unwrap();
    assert_eq!(job.stage, ShaderStage::Vertex);
    assert_eq!(job.source, TEST_VERTEX_SHADER);
    let job = plan_asset(&"test_fs".to_string()).unwrap();
    assert_eq!(job.stage, ShaderStage::Fragment);
    assert_eq!(job.source, TEST_FRAGMENT_SHADER);
    let job = plan_asset(&"test_vs2".to_string()).unwrap();
    assert_eq!(job.stage, ShaderStage::Vertex);
    assert_eq!(job.source, TEST_VERTEX_SHADER_2);
    let job = plan_asset(&"test_fs2".to_string()).unwrap();
    assert_eq!(job.stage, ShaderStage::Fragment);
    assert_eq!(job.source, TEST_FRAGMENT_SHADER_2);
    assert!(TEST_FRAGMENT_SHADER_2.contains("vec4(1.0, 0.0, 0.0, 1.0)"));
}

#[test]
fn unknown_names_are_not_planned() {
    assert!(plan_asset(&"test_gs".to_string()).is_none());
    assert!(plan_asset(&"".to_string()).is_none());
    assert!(plan_asset(&"TEST_VS".to_string()).is_none());
}

#[test]
fn compiled_words_become_shader_asset() {
    match asset_from_compilation(Some(vec![0x0723_0203, 7])) {
        Asset::Shader(w) => assert_eq!(w, vec![0x0723_0203, 7]),
        Asset::Unavailable => panic!("expected a shader"),
    }
    assert!(matches!(asset_from_compilation(None), Asset::Unavailable));
}

#[test]
fn shader_code_of_assets() {
    assert_eq!(Asset::Shader(vec![1, 2, 3]).into_shader_code(), Some(vec![1, 2, 3]));
    assert_eq!(Asset::Unavailable.into_shader_code(), None);
}

#[test]
fn request_answer_travels_over_its_channel() {
    let (tx, rx) = std::sync::mpsc::channel::<Asset>();
    let req = AssetRequest { name: "test_fs".to_string(), sender: tx };
    let answer = match plan_asset(&req.name) {
        Some(_) => asset_from_compilation(Some(vec![42])),
        None => Asset::Unavailable,
    };
    req.sender.send(answer).unwrap();
    assert_eq!(rx.recv().unwrap().into_shader_code(), Some(vec![42]));
}
