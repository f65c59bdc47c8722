//! The fixed HTML screens. Each page function returns a complete response
//! whose body is embedded at build time; serving a page has no inputs, no
//! side effects and no error conditions.

use vstd::prelude::*;
use crate::respuesta::{Respuesta, VistaRespuesta};
use crate::rutas::Ruta;

verus! {

pub open spec fn vista_cuerpo_pantalla1() -> Seq<char> {
    "<!DOCTYPE html><html><head><title>Pantalla 1</title></head><body><h1>Pantalla 1</h1><p>Primera pantalla del sitio.</p></body></html>"@
}

pub open spec fn vista_cuerpo_pantalla2() -> Seq<char> {
    "<!DOCTYPE html><html><head><title>Pantalla 2</title></head><body><h1>Pantalla 2</h1><p>Segunda pantalla del sitio.</p></body></html>"@
}

pub open spec fn vista_cuerpo_pantalla3() -> Seq<char> {
    "<!DOCTYPE html><html><head><title>Pantalla 3</title></head><body><h1>Pantalla 3</h1><p>Tercera pantalla del sitio.</p></body></html>"@
}

pub open spec fn vista_cuerpo_mantenimiento() -> Seq<char> {
    "<!DOCTYPE html><html><head><title>Mantenimiento</title></head><body><h1>Sitio en mantenimiento</h1><p>Volveremos pronto.</p></body></html>"@
}

pub open spec fn vista_cuerpo_404() -> Seq<char> {
    "<!DOCTYPE html><html><head><title>No encontrada</title></head><body><h1>404</h1><p>Pagina no encontrada.</p></body></html>"@
}

/// The response each route answers with. The registration route produces no
/// page of its own; the model places the not-found page there, and the
/// dispatch model never applies this function to it.
pub open spec fn vista_pagina(r: Ruta) -> VistaRespuesta {
    match r {
        Ruta::Pantalla1 => (VistaRespuesta {
            estado: 200,
            tipo_contenido: "text/html"@,
            cuerpo: vista_cuerpo_pantalla1(),
            ubicacion: None,
        }),
        Ruta::Pantalla2 => (VistaRespuesta {
            estado: 200,
            tipo_contenido: "text/html"@,
            cuerpo: vista_cuerpo_pantalla2(),
            ubicacion: None,
        }),
        Ruta::Pantalla3 => (VistaRespuesta {
            estado: 200,
            tipo_contenido: "text/html"@,
            cuerpo: vista_cuerpo_pantalla3(),
            ubicacion: None,
        }),
        Ruta::Mantenimiento => (VistaRespuesta {
            estado: 200,
            tipo_contenido: "text/html"@,
            cuerpo: vista_cuerpo_mantenimiento(),
            ubicacion: None,
        }),
        Ruta::CrearUsuario | Ruta::NoEncontrada => (VistaRespuesta {
            estado: 404,
            tipo_contenido: "text/html"@,
            cuerpo: vista_cuerpo_404(),
            ubicacion: None,
        }),
    }
}

/// First numbered screen: HTTP 200 with its fixed HTML body.
pub fn pantalla1() -> (r: Respuesta)
    ensures
        r@ == vista_pagina(Ruta::Pantalla1),
{
    Respuesta {
        estado: 200,
        tipo_contenido: "text/html".to_owned(),
        cuerpo:
            "<!DOCTYPE html><html><head><title>Pantalla 1</title></head><body><h1>Pantalla 1</h1><p>Primera pantalla del sitio.</p></body></html>".to_owned(),
        ubicacion: None,
    }
}

/// Second numbered screen: HTTP 200 with its fixed HTML body.
pub fn pantalla2() -> (r: Respuesta)
    ensures
        r@ == vista_pagina(Ruta::Pantalla2),
{
    Respuesta {
        estado: 200,
        tipo_contenido: "text/html".to_owned(),
        cuerpo:
            "<!DOCTYPE html><html><head><title>Pantalla 2</title></head><body><h1>Pantalla 2</h1><p>Segunda pantalla del sitio.</p></body></html>".to_owned(),
        ubicacion: None,
    }
}

/// Third numbered screen: HTTP 200 with its fixed HTML body.
pub fn pantalla3() -> (r: Respuesta)
    ensures
        r@ == vista_pagina(Ruta::Pantalla3),
{
    Respuesta {
        estado: 200,
        tipo_contenido: "text/html".to_owned(),
        cuerpo:
            "<!DOCTYPE html><html><head><title>Pantalla 3</title></head><body><h1>Pantalla 3</h1><p>Tercera pantalla del sitio.</p></body></html>".to_owned(),
        ubicacion: None,
    }
}

/// Maintenance page, also served at the root path: HTTP 200 with its fixed
/// HTML body.
pub fn mantenimiento() -> (r: Respuesta)
    ensures
        r@ == vista_pagina(Ruta::Mantenimiento),
{
    Respuesta {
        estado: 200,
        tipo_contenido: "text/html".to_owned(),
        cuerpo:
            "<!DOCTYPE html><html><head><title>Mantenimiento</title></head><body><h1>Sitio en mantenimiento</h1><p>Volveremos pronto.</p></body></html>".to_owned(),
        ubicacion: None,
    }
}

/// Catch-all page: HTTP 404 with the fixed not-found HTML body.
pub fn pagina_404() -> (r: Respuesta)
    ensures
        r@ == vista_pagina(Ruta::NoEncontrada),
{
    Respuesta {
        estado: 404,
        tipo_contenido: "text/html".to_owned(),
        cuerpo:
            "<!DOCTYPE html><html><head><title>No encontrada</title></head><body><h1>404</h1><p>Pagina no encontrada.</p></body></html>".to_owned(),
        ubicacion: None,
    }
}

/// The page that answers a dispatched route.
pub fn pagina(ruta: &Ruta) -> (r: Respuesta)
    ensures
        r@ == vista_pagina(*ruta),
{
    match ruta {
        Ruta::Pantalla1 => pantalla1(),
        Ruta::Pantalla2 => pantalla2(),
        Ruta::Pantalla3 => pantalla3(),
        Ruta::Mantenimiento => mantenimiento(),
        Ruta::CrearUsuario | Ruta::NoEncontrada => pagina_404(),
    }
}

} // verus!
