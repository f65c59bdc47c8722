//! Serving a request, short of the I/O: from method and path to either a
//! finished response or the one action that needs the database. The binary's
//! loop performs the insert and turns the outcome into a response through
//! the registration module.

use vstd::prelude::*;
use crate::paginas::{pagina, vista_cuerpo_404, vista_pagina};
use crate::respuesta::{Respuesta, VistaRespuesta};
use crate::rutas::{despachar, ruta_de, Metodo, Ruta};

verus! {

/// What a dispatched request asks of the caller: either send this finished
/// response, or run the registration insert and answer from its outcome.
pub enum Accion {
    Responder(Respuesta),
    RegistrarUsuario,
}

/// Mathematical model of an action.
pub enum VistaAccion {
    Responder(VistaRespuesta),
    RegistrarUsuario,
}

impl View for Accion {
    type V = VistaAccion;

    open spec fn view(&self) -> VistaAccion {
        match self {
            Accion::Responder(r) => VistaAccion::Responder(r@),
            Accion::RegistrarUsuario => VistaAccion::RegistrarUsuario,
        }
    }
}

/// Mathematical model of dispatch: every route but the registration one is
/// answered at once with its fixed page.
pub open spec fn modelo_atencion(m: Metodo, p: Seq<char>) -> VistaAccion {
    match ruta_de(m, p) {
        Ruta::CrearUsuario => VistaAccion::RegistrarUsuario,
        r => VistaAccion::Responder(vista_pagina(r)),
    }
}

/// Dispatches one request, following the routing table exactly.
pub fn atender(m: &Metodo, camino: &str) -> (r: Accion)
    ensures
        r@ == modelo_atencion(*m, camino@),
{
    let ruta = despachar(m, camino);
    match ruta {
        Ruta::CrearUsuario => Accion::RegistrarUsuario,
        _ => Accion::Responder(pagina(&ruta)),
    }
}

/// The five paths that serve fixed screens under GET.
pub open spec fn es_camino_estatico(p: Seq<char>) -> bool {
    ||| p == "/"@
    ||| p == "/pantalla1"@
    ||| p == "/pantalla2"@
    ||| p == "/pantalla3"@
    ||| p == "/mantenimiento"@
}

/// A GET to any of the five screen paths is answered immediately with HTTP
/// 200 and a non-empty HTML body. The response is a fixed value of the path
/// alone, so it is the same on every request: serving a screen reads no
/// state and writes none.
pub proof fn ley_paginas_estaticas(p: Seq<char>)
    requires
        es_camino_estatico(p),
    ensures
        ({
            let a = modelo_atencion(Metodo::Get, p);
            &&& a matches VistaAccion::Responder(v)
            &&& a matches VistaAccion::Responder(v) ==> v.estado == 200
            &&& a matches VistaAccion::Responder(v) ==> v.cuerpo.len() > 0
            &&& a matches VistaAccion::Responder(v) ==> v.tipo_contenido == "text/html"@
        }),
{
    reveal_strlit(
        "<!DOCTYPE html><html><head><title>Pantalla 1</title></head><body><h1>Pantalla 1</h1><p>Primera pantalla del sitio.</p></body></html>",
    );
    reveal_strlit(
        "<!DOCTYPE html><html><head><title>Pantalla 2</title></head><body><h1>Pantalla 2</h1><p>Segunda pantalla del sitio.</p></body></html>",
    );
    reveal_strlit(
        "<!DOCTYPE html><html><head><title>Pantalla 3</title></head><body><h1>Pantalla 3</h1><p>Tercera pantalla del sitio.</p></body></html>",
    );
    reveal_strlit(
        "<!DOCTYPE html><html><head><title>Mantenimiento</title></head><body><h1>Sitio en mantenimiento</h1><p>Volveremos pronto.</p></body></html>",
    );
}

/// Any request outside the routing table, whatever its method, is answered
/// with HTTP 404 and the designated not-found body.
pub proof fn ley_ruta_no_definida(m: Metodo, p: Seq<char>)
    requires
        !(m == Metodo::Get && es_camino_estatico(p)),
        !(m == Metodo::Post && p == "/crear_usuario"@),
    ensures
        ({
            let a = modelo_atencion(m, p);
            &&& a matches VistaAccion::Responder(v)
            &&& a matches VistaAccion::Responder(v) ==> v.estado == 404
            &&& a matches VistaAccion::Responder(v) ==> v.cuerpo == vista_cuerpo_404()
        }),
{
}

/// The registration insert is reachable through exactly one request shape:
/// POST to `/crear_usuario`. Every other request is answered without
/// touching the database.
pub proof fn ley_unica_ruta_de_registro(m: Metodo, p: Seq<char>)
    ensures
        modelo_atencion(m, p) == VistaAccion::RegistrarUsuario <==> (m == Metodo::Post
            && p == "/crear_usuario"@),
{
}

} // verus!
