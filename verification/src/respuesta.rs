//! The HTTP response value that every handler of this library produces: a
//! status code, a content type, a body, and an optional redirect target. The
//! binary translates it one to one into a framework response.

use vstd::prelude::*;

verus! {

/// A computed HTTP response.
pub struct Respuesta {
    /// HTTP status code.
    pub estado: u16,
    /// Value of the `Content-Type` header; empty when no body is sent.
    pub tipo_contenido: String,
    /// Response body.
    pub cuerpo: String,
    /// Value of the `Location` header on a redirect.
    pub ubicacion: Option<String>,
}

/// Mathematical model of a response.
pub struct VistaRespuesta {
    pub estado: int,
    pub tipo_contenido: Seq<char>,
    pub cuerpo: Seq<char>,
    pub ubicacion: Option<Seq<char>>,
}

impl View for Respuesta {
    type V = VistaRespuesta;

    open spec fn view(&self) -> VistaRespuesta {
        VistaRespuesta {
            estado: self.estado as int,
            tipo_contenido: self.tipo_contenido@,
            cuerpo: self.cuerpo@,
            ubicacion: match self.ubicacion {
                Some(u) => Some(u@),
                None => None,
            },
        }
    }
}

} // verus!
