//! A minimal multi-page web server library: a routing table over a fixed set
//! of HTML screens, a configuration loader, and the decision logic of a user
//! registration endpoint. The verified library computes routes, responses and
//! configuration from plain values; the binary around it performs the HTTP
//! and database I/O.

use vstd::prelude::*;

pub mod config;
pub mod formulario;
pub mod paginas;
pub mod registro;
pub mod respuesta;
pub mod rutas;
pub mod servidor;

verus! {

/// Upper bound on simultaneously open database connections in the shared pool.
pub const MAX_CONEXIONES: u32 = 5;

} // verus!
