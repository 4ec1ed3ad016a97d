[package]
name = "app_core"
version = "0.1.0"
edition = "2021"
publish = false

[dependencies]
ash = "=0.38.0"
bytemuck = { version = "=1.25.2", features = ["derive"] }
console_error_panic_hook = "=0.1.7"
console_log = "=1.1.0"
egui = "=0.33.3"
egui-wgpu = "=0.33.3"
egui-winit = { version = "=0.33.3", default-features = false }
env_logger = "=0.11.11"
futures = "=0.3.34"
js-sys = "=0.3.106"
log = "=0.4.34"
nalgebra-glm = "=0.21.0"
openxr = "=0.22.0"
pollster = "=1.0.1"
wasm-bindgen = "=0.2.129"
wasm-bindgen-futures = "=0.4.79"
web-sys = { version = "=0.3.106", features = ["Document", "Window", "Element", "HtmlElement", "HtmlCanvasElement", "HtmlButtonElement", "CssStyleDeclaration", "Navigator", "Node", "Event", "WebGl2RenderingContext", "WebGlBuffer", "WebGlProgram", "WebGlShader", "WebGlUniformLocation", "WebGlFramebuffer", "DomPointReadOnly", "XrFrame", "XrPose", "XrReferenceSpace", "XrReferenceSpaceType", "XrRenderStateInit", "XrRigidTransform", "XrSession", "XrSessionInit", "XrSessionMode", "XrSpace", "XrSystem", "XrView", "XrViewerPose", "XrViewport", "XrWebGlLayer", "XrWebGlLayerInit"] }
web-time = "=1.1.0"
wgpu = "=27.0.1"
wgpu-hal = "=27.0.4"
winit = "=0.30.13"
