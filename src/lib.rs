//! Quadrature encoder interface on a general-purpose timer, over a model of
//! the timer's register block.

pub mod slave_mode;
pub mod registers;
pub mod qei;
