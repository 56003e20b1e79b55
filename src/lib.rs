//! Builders for command lines: a single command (`Cmd`) and a sequence of
//! commands joined by a separator token (`CmdList`), rendered as an ordered
//! sequence of argv-style tokens.
pub mod arg;
pub mod arg_list;
pub mod cmd;
pub mod cmd_list;
pub mod flag;
pub mod invocation;
pub mod model;
pub mod opt;
pub mod param;
pub mod tokens;

pub use crate::arg::Arg;
pub use crate::arg_list::ArgList;
pub use crate::cmd::Cmd;
pub use crate::cmd_list::CmdList;
pub use crate::flag::Flag;
pub use crate::invocation::Invocation;
pub use crate::opt::Opt;
pub use crate::param::Param;
