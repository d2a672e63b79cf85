//! Time one call of a function and keep its result, the time it took and a
//! label for the call together.

pub mod clock;
pub mod decimal;
pub mod elapsed;
pub mod timer;

pub use crate::elapsed::Elapsed;
pub use crate::timer::timer;
pub use crate::timer::timer1;
pub use crate::timer::timer2;
pub use crate::timer::TimerResult;
