//! A layered 2D rendering pipeline: a background camera renders into an
//! off-screen raw surface, a LUT pass grades it into a processed surface, and
//! a composite pass blends that under the main camera's output before
//! tone-mapping. The library holds the pipeline's state and decisions as
//! plain values with verified contracts; the engine glue performs them.

pub mod background_camera;
pub mod background_lut;
pub mod camera_plugin;
pub mod composite_pass;
pub mod debug;
pub mod frame;
pub mod render_graph;
pub mod surface;
