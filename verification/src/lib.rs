pub mod args;
pub mod exec;
pub mod install;

pub use args::CommonArgs;
pub use args::LinuxArgs;
pub use exec::ExecError;
pub use exec::ExecMethod;
pub use exec::LaunchPlan;
pub use exec::check_executable;
pub use exec::join_path;
pub use exec::resolve;
pub use exec::spawn_outcome;
pub use install::BeamNGInstall;
