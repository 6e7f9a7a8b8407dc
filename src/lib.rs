pub mod layout;
pub mod pipeline;
pub mod runtimes;
