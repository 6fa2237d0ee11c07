//! Verified core of an animated single-sphere ray-casting renderer.
//!
//! The renderer draws one sphere, lit by a light that orbits in the XZ
//! plane, into a flat framebuffer of packed 32-bit pixels. This crate
//! holds everything about that pipeline that can be stated and proved
//! exactly: packed-color encoding, the pixel-coordinate mapping, exact
//! 3D vector algebra, the ray–sphere discriminant and its hit/miss
//! decision, the framebuffer, and the frame-loop state machine.
//!
//! The embedding program evaluates the transcendental parts of the
//! pipeline (square roots for normalisation, the tangent for the camera
//! near plane, the orbiting light's sine and cosine) in floating point
//! and owns the window; it drives the loop through [`driver`] and
//! writes pixels through [`frame`].

pub mod color;
pub mod coords;
pub mod driver;
pub mod frame;
pub mod geom;
pub mod vec3;
