//! The requests on containers that are built up step by step.

pub mod create;
pub mod kill;
pub mod list;
pub mod restart;
pub mod start;
pub mod stop;

pub use create::Builder as Create;
pub use kill::Builder as Kill;
pub use list::Builder as List;
pub use restart::Builder as Restart;
pub use start::Builder as Start;
pub use stop::Builder as Stop;
