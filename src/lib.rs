pub mod bridge;
pub mod coyote;
pub mod device;
pub mod hub;
pub mod output;
pub mod packet;
pub mod registry;
pub mod relay;
pub mod remote;
pub mod scanner;
pub mod session;
pub mod text;
pub mod v3;
