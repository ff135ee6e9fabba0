# dunge

The verified core of dunge, a simple and portable 3d render based on wgpu.

`src/` is a Verus library. It generates the WGSL text of the built-in shaders
and numbers their bind groups, describes the pipelines, bind group layouts,
textures and buffers that wgpu is asked to create, builds meshes, checks the
input of the vertex derive, and takes the decisions of the event loops: each
decision method takes what happened and answers with the steps to perform.

`app/` is ordinary Rust around it: the winit event loop that performs those
steps, the conversions to and from wgpu and winit values, the floating point
colors and cursor, the token generation of the vertex derive and the async
runtime.

`tests/` holds the tests, run against the library with the real wgpu, winit
and bytemuck linked.
