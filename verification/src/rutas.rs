//! The routing table: from an HTTP method and a request path to the handler
//! that answers it. Five paths serve fixed screens under GET, one path
//! accepts the registration form under POST, and everything else falls to
//! the not-found page.

use vstd::prelude::*;

verus! {

/// The request methods the routing table distinguishes. Every method other
/// than GET and POST falls to the catch-all route.
#[derive(Debug, PartialEq, Eq, Structural, Clone, Copy)]
pub enum Metodo {
    Get,
    Post,
    Otro,
}

/// The handlers a request can be dispatched to.
#[derive(Debug, PartialEq, Eq, Structural, Clone, Copy)]
pub enum Ruta {
    Pantalla1,
    Pantalla2,
    Pantalla3,
    Mantenimiento,
    CrearUsuario,
    NoEncontrada,
}

/// The routing table as a function. The root path serves the maintenance
/// page: that choice is part of this library's external contract.
pub open spec fn ruta_de(m: Metodo, p: Seq<char>) -> Ruta {
    if m == Metodo::Get {
        if p == "/"@ || p == "/mantenimiento"@ {
            Ruta::Mantenimiento
        } else if p == "/pantalla1"@ {
            Ruta::Pantalla1
        } else if p == "/pantalla2"@ {
            Ruta::Pantalla2
        } else if p == "/pantalla3"@ {
            Ruta::Pantalla3
        } else {
            Ruta::NoEncontrada
        }
    } else if m == Metodo::Post && p == "/crear_usuario"@ {
        Ruta::CrearUsuario
    } else {
        Ruta::NoEncontrada
    }
}

/// Character-by-character string comparison, proved equivalent to equality
/// of the two views.
pub fn igual_str(a: &str, b: &str) -> (r: bool)
    ensures
        r == (a@ == b@),
{
    let na = a.unicode_len();
    let nb = b.unicode_len();
    if na != nb {
        return false;
    }
    let mut i: usize = 0;
    while i < na
        invariant
            na == a@.len(),
            na == b@.len(),
            i <= na,
            forall|j: int| 0 <= j < i ==> a@[j] == b@[j],
        decreases na - i,
    {
        let ca = a.get_char(i);
        let cb = b.get_char(i);
        if ca != cb {
            return false;
        }
        i = i + 1;
    }
    proof {
        assert(a@ =~= b@);
    }
    true
}

/// Dispatches a request to its handler, following the routing table exactly.
pub fn despachar(m: &Metodo, camino: &str) -> (r: Ruta)
    ensures
        r == ruta_de(*m, camino@),
{
    match m {
        Metodo::Get => {
            if igual_str(camino, "/") || igual_str(camino, "/mantenimiento") {
                Ruta::Mantenimiento
            } else if igual_str(camino, "/pantalla1") {
                Ruta::Pantalla1
            } else if igual_str(camino, "/pantalla2") {
                Ruta::Pantalla2
            } else if igual_str(camino, "/pantalla3") {
                Ruta::Pantalla3
            } else {
                Ruta::NoEncontrada
            }
        },
        Metodo::Post => {
            if igual_str(camino, "/crear_usuario") {
                Ruta::CrearUsuario
            } else {
                Ruta::NoEncontrada
            }
        },
        Metodo::Otro => Ruta::NoEncontrada,
    }
}

} // verus!
