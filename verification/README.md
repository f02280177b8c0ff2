# nova_ge

The Nova game engine, split in two:

- `src/` is the verified library (Verus). It holds the engine's decisions:
  - `frame` – frame pacing of the renderer: which frame slot is recorded next
    and when the swapchain is rebuilt, as a state machine driven by the
    driver's answers;
  - `swapchain` – surface format, presentation mode, image size and image
    count of the swapchain;
  - `device` – choice of GPU and queue family, and of the memory type for
    buffers;
  - `instance` – what the engine tells the Vulkan driver about itself;
  - `input` – keyboard, mouse, text and focus input of GLFW and winit windows
    turned into GUI events;
  - `asset` – assets, asset requests, and which shader answers a request;
  - `entity` – entities and the registry of their random ids;
  - `logging` – logger settings, level colors and popup icons;
  - `window` – what the window event loops do with an event;
  - `shared` – data shared by all threads.
- `app/` is the program around it: threads, channels, the GLFW and winit
  windows, every Vulkan call (ash), the shader compiler (shaderc), imgui, the
  logger back ends (simplelog, alerta), and the floating-point parts of input
  handling.

`tests/` exercises the library on concrete values.
