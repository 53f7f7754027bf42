//! Integer geometric algebra, collision bookkeeping, input flags and
//! renderer selection rules of the bengine game engine.

pub mod arith;
pub mod bivector;
pub mod rotor;
pub mod vector;
pub mod number;
pub mod vec2;
pub mod identities;
pub mod product_laws;
pub mod collision;
pub mod gltf;
pub mod game;
pub mod event_loop;
pub mod renderer;
pub mod audio;
