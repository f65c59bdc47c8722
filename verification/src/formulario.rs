//! Decoding the registration form. The url-encoded body is turned into
//! key-value pairs by an outside decoder behind a trusted wrapper; picking
//! the three required fields out of the pairs, and rejecting a body that
//! lacks one, is verified here.

use vstd::prelude::*;
use crate::registro::{modelo_formulario_invalido, UsuarioForm, VistaFormulario};
use crate::respuesta::{Respuesta, VistaRespuesta};
use crate::rutas::igual_str;

verus! {

pub uninterp spec fn pares_decodificados(s: Seq<char>) -> Option<Seq<(Seq<char>, Seq<char>)>>;

/// Relies on serde_urlencoded::from_str: decodes a url-encoded body into its
/// key-value pairs in order, and its result depends on the input text alone.
#[verifier::external_body]
fn decodificar_pares(cuerpo: &str) -> (r: Option<Vec<(String, String)>>)
    ensures
        r.deep_view() == pares_decodificados(cuerpo@),
{
    match serde_urlencoded::from_str::<Vec<(String, String)>>(cuerpo) {
        Ok(pares) => Some(pares),
        Err(_) => None,
    }
}

/// The value under the first occurrence of a key, if the key occurs at all.
pub open spec fn busca(pares: Seq<(Seq<char>, Seq<char>)>, clave: Seq<char>) -> Option<
    Seq<char>,
>
    decreases pares.len(),
{
    if pares.len() == 0 {
        None
    } else if pares.first().0 == clave {
        Some(pares.first().1)
    } else {
        busca(pares.drop_first(), clave)
    }
}

/// Looks a key up among the decoded pairs, taking the first occurrence.
fn valor_de(pares: &Vec<(String, String)>, clave: &str) -> (r: Option<String>)
    ensures
        r.deep_view() == busca(pares.deep_view(), clave@),
{
    let n = pares.len();
    let mut i: usize = 0;
    proof {
        assert(pares.deep_view().skip(0) =~= pares.deep_view());
    }
    while i < n
        invariant
            n == pares.len(),
            i <= n,
            busca(pares.deep_view(), clave@) == busca(
                pares.deep_view().skip(i as int),
                clave@,
            ),
        decreases n - i,
    {
        proof {
            assert(pares.deep_view().skip(i as int).first() == pares.deep_view()[i as int]);
            assert(pares.deep_view().skip(i as int).drop_first() =~= pares.deep_view().skip(
                i as int + 1,
            ));
        }
        if igual_str(pares[i].0.as_str(), clave) {
            return Some(pares[i].1.clone());
        }
        i = i + 1;
    }
    proof {
        assert(pares.deep_view().skip(n as int) =~= Seq::<(Seq<char>, Seq<char>)>::empty());
    }
    None
}

/// The form the decoded pairs describe: present exactly when each of the
/// three required fields occurs among them.
pub open spec fn modelo_formulario(pares: Seq<(Seq<char>, Seq<char>)>) -> Option<
    VistaFormulario,
> {
    match (busca(pares, "usuario"@), busca(pares, "email"@), busca(pares, "password"@)) {
        (Some(u), Some(e), Some(p)) => Some(
            VistaFormulario { usuario: u, email: e, password: p },
        ),
        _ => None,
    }
}

/// Extracts the three required fields from the decoded pairs.
fn formulario_de_pares(pares: &Vec<(String, String)>) -> (r: Option<UsuarioForm>)
    ensures
        r is Some <==> modelo_formulario(pares.deep_view()) is Some,
        r is Some ==> modelo_formulario(pares.deep_view()) == Some(r->Some_0@),
{
    let usuario = match valor_de(pares, "usuario") {
        Some(u) => u,
        None => {
            return None;
        },
    };
    let email = match valor_de(pares, "email") {
        Some(e) => e,
        None => {
            return None;
        },
    };
    let password = match valor_de(pares, "password") {
        Some(p) => p,
        None => {
            return None;
        },
    };
    Some(UsuarioForm { usuario, email, password })
}

/// What the registration endpoint should do with a request body: reject it
/// at once, or insert the decoded form.
pub enum PasoRegistro {
    Rechazar(Respuesta),
    Insertar(UsuarioForm),
}

/// Mathematical model of a registration step.
pub enum VistaPaso {
    Rechazar(VistaRespuesta),
    Insertar(VistaFormulario),
}

impl View for PasoRegistro {
    type V = VistaPaso;

    open spec fn view(&self) -> VistaPaso {
        match self {
            PasoRegistro::Rechazar(r) => VistaPaso::Rechazar(r@),
            PasoRegistro::Insertar(f) => VistaPaso::Insertar(f@),
        }
    }
}

/// Mathematical model of handling a registration body: a body that does not
/// decode, or decodes without one of the three fields, is rejected with the
/// client-error response; any other body yields exactly one insert.
pub open spec fn modelo_paso(decodificado: Option<Seq<(Seq<char>, Seq<char>)>>) -> VistaPaso {
    match decodificado {
        None => VistaPaso::Rechazar(modelo_formulario_invalido()),
        Some(pares) => match modelo_formulario(pares) {
            None => VistaPaso::Rechazar(modelo_formulario_invalido()),
            Some(vf) => VistaPaso::Insertar(vf),
        },
    }
}

/// Decides a registration request from its raw body: the client-error
/// response for a malformed or incomplete form, the form to insert
/// otherwise. The caller runs the insert only on the latter.
pub fn preparar_registro(cuerpo: &str) -> (r: PasoRegistro)
    ensures
        r@ == modelo_paso(pares_decodificados(cuerpo@)),
{
    let pares = match decodificar_pares(cuerpo) {
        Some(pares) => pares,
        None => {
            return PasoRegistro::Rechazar(crate::registro::formulario_invalido());
        },
    };
    match formulario_de_pares(&pares) {
        Some(f) => PasoRegistro::Insertar(f),
        None => PasoRegistro::Rechazar(crate::registro::formulario_invalido()),
    }
}

/// A body whose pairs lack one of the three required fields is rejected
/// with HTTP 400, and the registration step never asks for an insert.
pub proof fn ley_campo_faltante(pares: Seq<(Seq<char>, Seq<char>)>)
    requires
        busca(pares, "usuario"@) is None || busca(pares, "email"@) is None || busca(
            pares,
            "password"@,
        ) is None,
    ensures
        modelo_paso(Some(pares)) == VistaPaso::Rechazar(modelo_formulario_invalido()),
        modelo_formulario_invalido().estado == 400,
{
}

} // verus!
