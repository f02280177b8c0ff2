//! What the window's event loops do with the events that reach them.
use vstd::prelude::*;

verus! {

/// `GLFW_KEY_S`: the key that reloads the shaders.
pub const GLFW_KEY_S: i32 = 83;

/// Asset name of the vertex shader that a reload switches to.
pub const RELOAD_VERTEX_ASSET: &'static str = "test_vs2";
/// Asset name of the fragment shader that a reload switches to.
pub const RELOAD_FRAGMENT_ASSET: &'static str = "test_fs2";

/// An event of the main (GLFW) window, as far as the render loop reads it.
#[derive(Clone, Copy, Debug, PartialEq, Eq, Structural)]
pub enum MainWindowEvent {
    /// The user asked to close the window.
    Close,
    /// A key event (press, release or repeat) of the key with this GLFW code.
    Key { key: i32 },
    /// The window's size changed.
    Resized,
    /// Anything else.
    Other,
}

/// What the render loop does for an event of the main window.
#[derive(Clone, Copy, Debug)]
pub enum MainWindowAction {
    /// Mark the window to be closed; the loop ends before the next frame.
    Close,
    /// Fetch these shader assets and rebuild the pipeline with them.
    ReloadShaders { vertex_asset: &'static str, fragment_asset: &'static str },
    /// Rebuild the swapchain before the next frame.
    Resize,
    /// Nothing.
    Nothing,
}

/// The render loop's reaction to an event of the main window.
pub open spec fn spec_main_window_action(event: MainWindowEvent) -> MainWindowAction {
    match event {
        MainWindowEvent::Close => MainWindowAction::Close,
        MainWindowEvent::Key { key } => if key == GLFW_KEY_S {
            MainWindowAction::ReloadShaders {
                vertex_asset: RELOAD_VERTEX_ASSET,
                fragment_asset: RELOAD_FRAGMENT_ASSET,
            }
        } else {
            MainWindowAction::Nothing
        },
        MainWindowEvent::Resized => MainWindowAction::Resize,
        MainWindowEvent::Other => MainWindowAction::Nothing,
    }
}

/// Decides what the render loop does for an event of the main window.
pub fn main_window_action(event: MainWindowEvent) -> (action: MainWindowAction)
    ensures
        action == spec_main_window_action(event),
{
    match event {
        MainWindowEvent::Close => MainWindowAction::Close,
        MainWindowEvent::Key { key } => {
            if key == GLFW_KEY_S {
                MainWindowAction::ReloadShaders {
                    vertex_asset: RELOAD_VERTEX_ASSET,
                    fragment_asset: RELOAD_FRAGMENT_ASSET,
                }
            } else {
                MainWindowAction::Nothing
            }
        },
        MainWindowEvent::Resized => MainWindowAction::Resize,
        MainWindowEvent::Other => MainWindowAction::Nothing,
    }
}

/// Only a close request closes the main window, only the S key reloads the
/// shaders (with the second test shaders), and only a size change resizes;
/// every other key does nothing.
pub proof fn lemma_main_window_reactions(event: MainWindowEvent)
    ensures
        spec_main_window_action(event) is Close <==> event == MainWindowEvent::Close,
        spec_main_window_action(event) is Resize <==> event == MainWindowEvent::Resized,
        spec_main_window_action(event) is ReloadShaders <==> event == (MainWindowEvent::Key { key: GLFW_KEY_S }),
        spec_main_window_action(event) is ReloadShaders ==> spec_main_window_action(event) == (
            MainWindowAction::ReloadShaders { vertex_asset: "test_vs2", fragment_asset: "test_fs2" }),
        event matches MainWindowEvent::Key { key } && key != GLFW_KEY_S
            ==> spec_main_window_action(event) is Nothing,
{
}

/// An event of a winit event loop, as far as the engine reads it.
#[derive(Clone, Copy, Debug, PartialEq, Eq, Structural)]
pub enum LoopEvent {
    CloseRequested,
    Resized,
    RedrawRequested,
    /// All pending events were handled.
    MainEventsCleared,
    Other,
}

/// What the winit event loop does for an event; after every event other
/// than a close request the loop waits for the next one.
#[derive(Clone, Copy, Debug, PartialEq, Eq, Structural)]
pub enum LoopAction {
    /// Leave the loop.
    Exit,
    /// Rebuild the swapchain before the next frame.
    ResizeSwapchain,
    /// Count and draw a frame, then ask for the next redraw.
    DrawFrame,
    /// Ask for a redraw.
    RequestRedraw,
    /// Nothing.
    Wait,
}

pub open spec fn spec_loop_action(event: LoopEvent) -> LoopAction {
    match event {
        LoopEvent::CloseRequested => LoopAction::Exit,
        LoopEvent::Resized => LoopAction::ResizeSwapchain,
        LoopEvent::RedrawRequested => LoopAction::DrawFrame,
        LoopEvent::MainEventsCleared => LoopAction::RequestRedraw,
        LoopEvent::Other => LoopAction::Wait,
    }
}

/// Decides what the winit event loop does for an event.
pub fn loop_action(event: LoopEvent) -> (action: LoopAction)
    ensures
        action == spec_loop_action(event),
{
    match event {
        LoopEvent::CloseRequested => LoopAction::Exit,
        LoopEvent::Resized => LoopAction::ResizeSwapchain,
        LoopEvent::RedrawRequested => LoopAction::DrawFrame,
        LoopEvent::MainEventsCleared => LoopAction::RequestRedraw,
        LoopEvent::Other => LoopAction::Wait,
    }
}

} // verus!
