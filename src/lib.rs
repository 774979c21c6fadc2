pub mod film;
pub mod integrator;
pub mod intersection;
pub mod kernel;
pub mod sampler;
pub mod scene;
pub mod setup;
pub mod utils;

pub use film::Film;
pub use integrator::{RenderProgress, SampleIntegrator};
pub use intersection::Side;
pub use kernel::{KernelCommand, Mailbox, Worker};
pub use setup::setup_window;
