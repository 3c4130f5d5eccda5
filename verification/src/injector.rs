//! The injector: the machine code it runs inside the game process, the Mono functions and
//! module it looks for, and the order of its steps.

pub mod assembler;
pub mod error;
pub mod machine;
pub mod mono;
pub mod outcome;
pub mod pe;
pub mod protocol;
pub mod stubs;
pub mod utils;
