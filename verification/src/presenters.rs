//! Presenters: conversions from library values to transport shapes. The
//! color presenter needs floating-point channels and therefore lives with
//! the transport, outside the library.

pub mod position;

pub use position::Position as PositionPresenter;
