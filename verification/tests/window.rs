use nova_ge::window::{
    loop_action, main_window_action, LoopAction, LoopEvent, MainWindowAction, MainWindowEvent,
    GLFW_KEY_S,
};

#[test]
fn s_key_reloads_shaders() {
    match main_window_action(MainWindowEvent::Key { key: GLFW_KEY_S }) {
        MainWindowAction::ReloadShaders { vertex_asset, fragment_asset } => {
            assert_eq!(vertex_asset, "test_vs2");
            assert_eq!(fragment_asset, "test_fs2");
        }
        other => panic!("unexpected {:?}", other),
    }
    assert!(matches!(main_window_action(MainWindowEvent::Key { key: 65 }), MainWindowAction::Nothing));
}

#[test]
fn close_and_resize_of_main_window() {
    assert!(matches!(main_window_action(MainWindowEvent::Close), MainWindowAction::Close));
    assert!(matches!(main_window_action(MainWindowEvent::Resized), MainWindowAction::Resize));
    assert!(matches!(main_window_action(MainWindowEvent::Other), MainWindowAction::Nothing));
}

#[test]
fn winit_loop_actions() {
    assert_eq!(loop_action(LoopEvent::CloseRequested), LoopAction::Exit);
    assert_eq!(loop_action(LoopEvent::Resized), LoopAction::ResizeSwapchain);
    assert_eq!(loop_action(LoopEvent::RedrawRequested), LoopAction::DrawFrame);
    assert_eq!(loop_action(LoopEvent::MainEventsCleared), LoopAction::RequestRedraw);
    assert_eq!(loop_action(LoopEvent::Other), LoopAction::Wait);
}
