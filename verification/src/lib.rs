//! Simple and portable 3d render: the verified core of the shader generator,
//! the resource descriptions and the event loop decisions.

pub mod out;
pub mod nodes;
pub mod view;
pub mod ambient;
pub mod sources;
pub mod spaces;
pub mod textures;
pub mod post;
pub mod parts;
pub mod light;
pub mod shader;
pub mod format;
pub mod buffer;
pub mod mesh;
pub mod screen;
pub mod time;
pub mod instance;
pub mod handles;
pub mod layer;
pub mod pipeline;
pub mod el;
pub mod canvas;
pub mod bind_groups;
pub mod vertex;
pub mod error;
pub mod runtime;
pub mod frame;
pub mod bind;
pub mod postproc;
