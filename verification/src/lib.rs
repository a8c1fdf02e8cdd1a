pub mod buffer;
pub mod bufreader;
pub mod copy;
pub mod duplex;

pub use bufreader::BufReader;
