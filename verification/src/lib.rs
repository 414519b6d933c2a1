//! A view-scale controller: an integer zoom level driven by discrete
//! zoom-in / zoom-out key events, clamped at a floor of 1, together with
//! the render scale derived from it and the static scene description that
//! the host presents.

pub mod controller;
pub mod scene;
